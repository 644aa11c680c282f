use shredstream_proxy::server::{
    on_hub_event, on_push_result, EntryBatch, HubEvent, PushResult, SubscriberAction,
    SubscriberState,
};
use tokio::sync::broadcast::error::TryRecvError;
use tokio::sync::broadcast::{channel, Receiver};

/// What a subscriber's task would be handed for the next thing on its cursor,
/// if there is anything. The hub carries slot numbers; the batch of a slot
/// has no entries.
fn poll(cursor: &mut Receiver<u64>) -> Option<HubEvent> {
    match cursor.try_recv() {
        Ok(slot) => Some(HubEvent::Batch(EntryBatch { slot, entries: vec![] })),
        Err(TryRecvError::Lagged(skipped)) => Some(HubEvent::Lagged(skipped)),
        Err(TryRecvError::Closed) => Some(HubEvent::Closed),
        Err(TryRecvError::Empty) => None,
    }
}

/// Runs a subscriber's task on everything its cursor holds, and returns the
/// slots it pushed and the state it ended in.
fn drain(cursor: &mut Receiver<u64>) -> (Vec<u64>, SubscriberState) {
    let mut state = SubscriberState::Active;
    let mut slots = Vec::new();
    while state == SubscriberState::Active {
        let event = match poll(cursor) {
            Some(event) => event,
            None => break,
        };
        let (next, action) = on_hub_event(state, event);
        state = next;
        if let SubscriberAction::Push(report) = action {
            slots.push(report.batch.slot);
            state = on_push_result(state, PushResult::Delivered);
        }
    }
    (slots, state)
}

#[test]
fn late_subscriber_sees_no_earlier_batch() {
    let (hub, mut early) = channel::<u64>(8);
    hub.send(1).unwrap();
    hub.send(2).unwrap();
    let mut late = hub.subscribe();
    hub.send(3).unwrap();
    assert_eq!(drain(&mut early), (vec![1, 2, 3], SubscriberState::Active));
    assert_eq!(drain(&mut late), (vec![3], SubscriberState::Active));
}

#[test]
fn every_subscriber_gets_every_batch_in_order() {
    let (hub, mut first) = channel::<u64>(8);
    let mut second = hub.subscribe();
    for slot in [10u64, 11, 12, 15] {
        hub.send(slot).unwrap();
    }
    assert_eq!(drain(&mut first).0, vec![10, 11, 12, 15]);
    assert_eq!(drain(&mut second).0, vec![10, 11, 12, 15]);
}

#[test]
fn idle_subscriber_does_not_hold_up_another() {
    let (hub, mut idle) = channel::<u64>(2);
    let mut busy = hub.subscribe();
    let mut seen = Vec::new();
    for slot in 0u64..10 {
        // The producer is never refused, however far the idle cursor is behind.
        hub.send(slot).unwrap();
        seen.extend(drain(&mut busy).0);
    }
    assert_eq!(seen, (0u64..10).collect::<Vec<u64>>());
    // The idle subscriber is told of the gap, and its task ends on it.
    assert_eq!(drain(&mut idle), (vec![], SubscriberState::Terminated));
}

#[test]
fn closed_hub_ends_the_task_after_the_last_batch() {
    let (hub, mut cursor) = channel::<u64>(4);
    hub.send(7).unwrap();
    drop(hub);
    assert_eq!(drain(&mut cursor), (vec![7], SubscriberState::Terminated));
}
