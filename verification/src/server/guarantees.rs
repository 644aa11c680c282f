//! What holds of every subscriber's task, over any number of rounds.

use vstd::prelude::*;
use crate::server::{
    after_hub_event,
    after_push,
    batch_report,
    entries_events,
    trade_batch,
    EntryBatchView,
    HubEventView,
    PushResult,
    SubscriberActionView,
    SubscriberState,
    TradeBatchView,
};
use crate::transaction::types::TradeEventView;

verus! {

/// One round of a subscriber's task: what its wait on the hub came to and,
/// if that led to a push, what became of the push.
pub struct Round {
    pub event: HubEventView,
    pub push: PushResult,
}

/// The state of a task after a round that it entered in `state`.
pub open spec fn state_after_round(state: SubscriberState, round: Round) -> SubscriberState {
    let (next, action) = after_hub_event(state, round.event);
    match action {
        SubscriberActionView::Push(_) => after_push(next, round.push),
        SubscriberActionView::Stop => next,
    }
}

/// The batch that a task hands to its subscriber in a round that it entered
/// in `state`, if any.
pub open spec fn pushed_in_round(state: SubscriberState, round: Round) -> Option<TradeBatchView> {
    match after_hub_event(state, round.event).1 {
        SubscriberActionView::Push(report) => Some(report.batch),
        SubscriberActionView::Stop => None,
    }
}

/// The state of a task, active at first, after the first `n` of `rounds`.
pub open spec fn state_after(rounds: Seq<Round>, n: nat) -> SubscriberState
    decreases n,
{
    if n == 0 {
        SubscriberState::Active
    } else {
        state_after_round(state_after(rounds, (n - 1) as nat), rounds[n - 1])
    }
}

/// The batches that a task, active at first, hands to its subscriber in the
/// first `n` of `rounds`, in order.
pub open spec fn pushed(rounds: Seq<Round>, n: nat) -> Seq<TradeBatchView>
    decreases n,
{
    if n == 0 {
        Seq::empty()
    } else {
        let before = pushed(rounds, (n - 1) as nat);
        match pushed_in_round(state_after(rounds, (n - 1) as nat), rounds[n - 1]) {
            Some(batch) => before.push(batch),
            None => before,
        }
    }
}

/// A batch of entries decodes to a batch of the same slot, also where no
/// instruction in it decodes and the list of events is empty.
pub proof fn lemma_slot_is_kept(batch: EntryBatchView)
    ensures
        trade_batch(batch).slot == batch.slot,
        batch_report(batch).batch == trade_batch(batch),
        batch.entries.len() == 0 ==> trade_batch(batch).transactions == Seq::<
            TradeEventView,
        >::empty(),
{
}

/// An active task answers every batch of entries with a push of exactly one
/// batch, that which the entries decode to.
pub proof fn lemma_batch_is_answered(batch: EntryBatchView)
    ensures
        after_hub_event(SubscriberState::Active, HubEventView::Batch(batch)) == (
            SubscriberState::Active,
            SubscriberActionView::Push(batch_report(batch)),
        ),
        pushed_in_round(
            SubscriberState::Active,
            Round { event: HubEventView::Batch(batch), push: PushResult::Delivered },
        ) == Some(trade_batch(batch)),
{
}

/// While the hub delivers batches and the subscriber takes them, the task
/// stays active and the subscriber receives one batch of events for each
/// batch of entries, in the order of arrival and under the same slots.
pub proof fn lemma_one_batch_for_each(rounds: Seq<Round>, n: nat)
    requires
        n <= rounds.len(),
        forall|i: int|
            0 <= i < n ==> (#[trigger] rounds[i]).event is Batch && rounds[i].push
                == PushResult::Delivered,
    ensures
        state_after(rounds, n) == SubscriberState::Active,
        pushed(rounds, n).len() == n,
        forall|i: int|
            0 <= i < n ==> #[trigger] pushed(rounds, n)[i] == trade_batch(rounds[i].event->Batch_0),
        forall|i: int|
            0 <= i < n ==> (#[trigger] pushed(rounds, n)[i]).slot == (rounds[i].event->Batch_0).slot,
    decreases n,
{
    if n > 0 {
        lemma_one_batch_for_each(rounds, (n - 1) as nat);
        assert(rounds[n - 1].event is Batch);
    }
}

/// A task ends on a lag, on the closing of the feed and on a failed push,
/// and on nothing else.
pub proof fn lemma_what_ends_a_task(round: Round)
    ensures
        state_after_round(SubscriberState::Active, round) == SubscriberState::Terminated <==> (
        round.event is Lagged || round.event is Closed || round.push == PushResult::Disconnected),
        state_after_round(SubscriberState::Terminated, round) == SubscriberState::Terminated,
        pushed_in_round(SubscriberState::Terminated, round) is None,
{
}

/// A task that has ended stays so: whatever comes after, it pushes nothing
/// more.
pub proof fn lemma_terminated_is_final(rounds: Seq<Round>, ended: nat, n: nat)
    requires
        state_after(rounds, ended) == SubscriberState::Terminated,
        ended <= n,
    ensures
        state_after(rounds, n) == SubscriberState::Terminated,
        pushed(rounds, n) == pushed(rounds, ended),
    decreases n,
{
    if n > ended {
        lemma_terminated_is_final(rounds, ended, (n - 1) as nat);
    }
}

/// Two tasks that the hub serves alike hand out the same batches: as long as
/// both are active, what one pushes is, event for event, what the other
/// pushes, whatever became of their earlier pushes.
pub proof fn lemma_subscribers_agree(first: Seq<Round>, second: Seq<Round>, n: nat)
    requires
        forall|i: int| 0 <= i < n ==> (#[trigger] first[i]).event == second[i].event,
        n > 0 ==> state_after(first, (n - 1) as nat) == SubscriberState::Active,
        n > 0 ==> state_after(second, (n - 1) as nat) == SubscriberState::Active,
    ensures
        pushed(first, n) == pushed(second, n),
    decreases n,
{
    if n > 1 {
        lemma_active_so_far(first, (n - 1) as nat, (n - 2) as nat);
        lemma_active_so_far(second, (n - 1) as nat, (n - 2) as nat);
        lemma_subscribers_agree(first, second, (n - 1) as nat);
    } else if n == 1 {
        assert(pushed(first, 0) == pushed(second, 0));
    }
}

/// A task that is active after some rounds was active after each round
/// before.
pub proof fn lemma_active_so_far(rounds: Seq<Round>, n: nat, earlier: nat)
    requires
        state_after(rounds, n) == SubscriberState::Active,
        earlier <= n,
    ensures
        state_after(rounds, earlier) == SubscriberState::Active,
{
    if state_after(rounds, earlier) == SubscriberState::Terminated {
        lemma_terminated_is_final(rounds, earlier, n);
    }
}

/// Decoding has no memory: equal batches of entries decode to equal batches
/// of events, whoever decodes them and whenever.
pub proof fn lemma_decoding_is_deterministic(first: EntryBatchView, second: EntryBatchView)
    requires
        first.slot == second.slot,
        first.entries.len() == second.entries.len(),
        forall|i: int| 0 <= i < first.entries.len() ==> first.entries[i] == second.entries[i],
    ensures
        batch_report(first) == batch_report(second),
        trade_batch(first).transactions.len() == trade_batch(second).transactions.len(),
        forall|i: int|
            0 <= i < trade_batch(first).transactions.len() ==> trade_batch(first).transactions[i]
                == trade_batch(second).transactions[i],
{
    assert(first.entries =~= second.entries);
    assert(entries_events(first.entries, first.entries.len()) == entries_events(
        second.entries,
        second.entries.len(),
    ));
}

} // verus!
