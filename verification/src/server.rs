//! The decisions of the streaming service.
//!
//! Each subscriber is served by a task of its own that waits for the next
//! batch of entries from the hub, decodes it, and pushes the result to the
//! subscriber. The waiting and the pushing are done by whoever runs the
//! task; what to do with each thing that happens is decided here.

use vstd::prelude::*;
use crate::transaction::{
    decode_transaction,
    transaction_events,
    transaction_failures,
    DecodeFailure,
};
use crate::transaction::resolve::tx_hash;
use crate::transaction::types::{
    event_views,
    TradeEvent,
    TradeEventView,
    TransactionView,
    VersionedTransaction,
};

pub mod guarantees;

verus! {

/// Number of batches that may wait in a subscriber's outbound channel.
pub const OUTBOUND_CAPACITY: usize = 100;

/// Seconds that the supervisor waits for a stop signal before it looks at
/// the exit flag again.
pub const STOP_POLL_SECONDS: u64 = 1;

/// An entry of the ledger: a run of transactions.
#[derive(Debug)]
pub struct Entry {
    pub transactions: Vec<VersionedTransaction>,
}

/// The entries of one slot, as the upstream feed delivers them.
#[derive(Debug)]
pub struct EntryBatch {
    pub slot: u64,
    pub entries: Vec<Entry>,
}

/// The trade events of one slot, as a subscriber receives them.
#[derive(Clone, Debug)]
pub struct TradeBatch {
    pub slot: u64,
    pub transactions: Vec<TradeEvent>,
}

/// An instruction that failed to decode, with the transaction it belongs to.
#[derive(Clone, Debug)]
pub struct FailedInstruction {
    pub tx_hash: String,
    pub failure: DecodeFailure,
}

/// A decoded batch, and the failures met on the way for whoever keeps a log.
#[derive(Debug)]
pub struct BatchReport {
    pub batch: TradeBatch,
    pub failures: Vec<FailedInstruction>,
}

/// Mathematical content of an [`Entry`].
pub struct EntryView {
    pub transactions: Seq<TransactionView>,
}

/// Mathematical content of an [`EntryBatch`].
pub struct EntryBatchView {
    pub slot: u64,
    pub entries: Seq<EntryView>,
}

/// Mathematical content of a [`TradeBatch`].
pub struct TradeBatchView {
    pub slot: u64,
    pub transactions: Seq<TradeEventView>,
}

/// Mathematical content of a [`FailedInstruction`].
pub struct FailedInstructionView {
    pub tx_hash: Seq<char>,
    pub failure: DecodeFailure,
}

/// Mathematical content of a [`BatchReport`].
pub struct BatchReportView {
    pub batch: TradeBatchView,
    pub failures: Seq<FailedInstructionView>,
}

impl View for Entry {
    type V = EntryView;

    open spec fn view(&self) -> EntryView {
        EntryView {
            transactions: Seq::new(self.transactions@.len(), |i: int| self.transactions@[i]@),
        }
    }
}

impl View for EntryBatch {
    type V = EntryBatchView;

    open spec fn view(&self) -> EntryBatchView {
        EntryBatchView {
            slot: self.slot,
            entries: Seq::new(self.entries@.len(), |i: int| self.entries@[i]@),
        }
    }
}

impl View for TradeBatch {
    type V = TradeBatchView;

    open spec fn view(&self) -> TradeBatchView {
        TradeBatchView { slot: self.slot, transactions: event_views(self.transactions@) }
    }
}

impl View for FailedInstruction {
    type V = FailedInstructionView;

    open spec fn view(&self) -> FailedInstructionView {
        FailedInstructionView { tx_hash: self.tx_hash@, failure: self.failure }
    }
}

/// The views of a list of failed instructions.
pub open spec fn failure_views(failures: Seq<FailedInstruction>) -> Seq<FailedInstructionView> {
    Seq::new(failures.len(), |i: int| failures[i]@)
}

impl View for BatchReport {
    type V = BatchReportView;

    open spec fn view(&self) -> BatchReportView {
        BatchReportView { batch: self.batch@, failures: failure_views(self.failures@) }
    }
}

/// The first `n` failures of a transaction, each with the transaction's
/// identifier.
pub open spec fn logged_failures(tx: TransactionView, n: nat) -> Seq<FailedInstructionView> {
    Seq::new(
        n,
        |i: int| FailedInstructionView { tx_hash: tx_hash(tx), failure: transaction_failures(tx)[i] },
    )
}

/// The events of the first `n` of a run of transactions, in order.
pub open spec fn run_events(transactions: Seq<TransactionView>, n: nat) -> Seq<TradeEventView>
    decreases n,
{
    if n == 0 {
        Seq::empty()
    } else {
        run_events(transactions, (n - 1) as nat) + transaction_events(transactions[n - 1])
    }
}

/// The failures of the first `n` of a run of transactions, in order.
pub open spec fn run_failures(transactions: Seq<TransactionView>, n: nat) -> Seq<
    FailedInstructionView,
>
    decreases n,
{
    if n == 0 {
        Seq::empty()
    } else {
        let tx = transactions[n - 1];
        run_failures(transactions, (n - 1) as nat) + logged_failures(
            tx,
            transaction_failures(tx).len(),
        )
    }
}

/// The events of the first `n` entries of a batch, in order.
pub open spec fn entries_events(entries: Seq<EntryView>, n: nat) -> Seq<TradeEventView>
    decreases n,
{
    if n == 0 {
        Seq::empty()
    } else {
        let entry = entries[n - 1];
        entries_events(entries, (n - 1) as nat) + run_events(
            entry.transactions,
            entry.transactions.len(),
        )
    }
}

/// The failures of the first `n` entries of a batch, in order.
pub open spec fn entries_failures(entries: Seq<EntryView>, n: nat) -> Seq<FailedInstructionView>
    decreases n,
{
    if n == 0 {
        Seq::empty()
    } else {
        let entry = entries[n - 1];
        entries_failures(entries, (n - 1) as nat) + run_failures(
            entry.transactions,
            entry.transactions.len(),
        )
    }
}

/// The batch of trade events that a batch of entries decodes to: the same
/// slot, and the events of every transaction of every entry, in order.
pub open spec fn trade_batch(batch: EntryBatchView) -> TradeBatchView {
    TradeBatchView {
        slot: batch.slot,
        transactions: entries_events(batch.entries, batch.entries.len()),
    }
}

/// What decoding a batch of entries comes to.
pub open spec fn batch_report(batch: EntryBatchView) -> BatchReportView {
    BatchReportView {
        batch: trade_batch(batch),
        failures: entries_failures(batch.entries, batch.entries.len()),
    }
}

fn log_failures(
    hash: &String,
    found: &Vec<DecodeFailure>,
    failures: &mut Vec<FailedInstruction>,
    Ghost(tx): Ghost<TransactionView>,
)
    requires
        hash@ == tx_hash(tx),
        found@ == transaction_failures(tx),
    ensures
        failure_views(final(failures)@) == failure_views(old(failures)@) + logged_failures(
            tx,
            found@.len(),
        ),
{
    let mut i: usize = 0;
    while i < found.len()
        invariant
            i <= found@.len(),
            hash@ == tx_hash(tx),
            found@ == transaction_failures(tx),
            failure_views(failures@) == failure_views(old(failures)@) + logged_failures(
                tx,
                i as nat,
            ),
        decreases found@.len() - i,
    {
        let ghost before = failures@;
        failures.push(FailedInstruction { tx_hash: hash.clone(), failure: found[i] });
        assert(failure_views(failures@) =~= failure_views(before).push(failures@.last()@));
        assert(logged_failures(tx, (i + 1) as nat) =~= logged_failures(tx, i as nat).push(
            failures@.last()@,
        ));
        i += 1;
    }
}

fn decode_entry(
    entry: &Entry,
    events: &mut Vec<TradeEvent>,
    failures: &mut Vec<FailedInstruction>,
)
    ensures
        event_views(final(events)@) == event_views(old(events)@) + run_events(
            entry@.transactions,
            entry@.transactions.len(),
        ),
        failure_views(final(failures)@) == failure_views(old(failures)@) + run_failures(
            entry@.transactions,
            entry@.transactions.len(),
        ),
{
    let mut i: usize = 0;
    while i < entry.transactions.len()
        invariant
            i <= entry.transactions@.len(),
            event_views(events@) == event_views(old(events)@) + run_events(
                entry@.transactions,
                i as nat,
            ),
            failure_views(failures@) == failure_views(old(failures)@) + run_failures(
                entry@.transactions,
                i as nat,
            ),
        decreases entry.transactions@.len() - i,
    {
        let transaction = &entry.transactions[i];
        let report = decode_transaction(transaction);
        let mut found = report.events;
        let ghost before = events@;
        let ghost added = found@;
        events.append(&mut found);
        assert(event_views(events@) =~= event_views(before) + event_views(added));
        log_failures(&report.tx_hash, &report.failures, failures, Ghost(transaction@));
        i += 1;
    }
}

/// Decodes a batch of entries: every transaction of every entry, in order,
/// under the slot of the batch.
pub fn decode_batch(batch: &EntryBatch) -> (report: BatchReport)
    ensures
        report@ == batch_report(batch@),
{
    let mut events: Vec<TradeEvent> = Vec::new();
    let mut failures: Vec<FailedInstruction> = Vec::new();
    let mut i: usize = 0;
    while i < batch.entries.len()
        invariant
            i <= batch.entries@.len(),
            event_views(events@) == entries_events(batch@.entries, i as nat),
            failure_views(failures@) == entries_failures(batch@.entries, i as nat),
        decreases batch.entries@.len() - i,
    {
        decode_entry(&batch.entries[i], &mut events, &mut failures);
        i += 1;
    }
    BatchReport { batch: TradeBatch { slot: batch.slot, transactions: events }, failures }
}

/// Whether a subscriber's task still runs.
#[derive(Clone, Copy, Debug, PartialEq, Eq, Structural)]
pub enum SubscriberState {
    /// The task waits for batches and pushes what it decodes.
    Active,
    /// The task has ended; only a new subscription starts another.
    Terminated,
}

/// What a wait on the hub came to.
#[derive(Debug)]
pub enum HubEvent {
    /// The next batch of entries.
    Batch(EntryBatch),
    /// The subscriber fell behind and this many batches were dropped for it.
    Lagged(u64),
    /// The feed has closed.
    Closed,
}

/// Mathematical content of a [`HubEvent`].
pub enum HubEventView {
    Batch(EntryBatchView),
    Lagged(u64),
    Closed,
}

impl View for HubEvent {
    type V = HubEventView;

    open spec fn view(&self) -> HubEventView {
        match self {
            HubEvent::Batch(batch) => HubEventView::Batch(batch@),
            HubEvent::Lagged(skipped) => HubEventView::Lagged(*skipped),
            HubEvent::Closed => HubEventView::Closed,
        }
    }
}

/// What a subscriber's task does next.
#[derive(Debug)]
pub enum SubscriberAction {
    /// Push the decoded batch to the subscriber, then report how that went.
    Push(BatchReport),
    /// End the task.
    Stop,
}

/// Mathematical content of a [`SubscriberAction`].
pub enum SubscriberActionView {
    Push(BatchReportView),
    Stop,
}

impl View for SubscriberAction {
    type V = SubscriberActionView;

    open spec fn view(&self) -> SubscriberActionView {
        match self {
            SubscriberAction::Push(report) => SubscriberActionView::Push(report@),
            SubscriberAction::Stop => SubscriberActionView::Stop,
        }
    }
}

/// What became of a push to the subscriber.
#[derive(Clone, Copy, Debug, PartialEq, Eq, Structural)]
pub enum PushResult {
    /// The subscriber's channel took the batch.
    Delivered,
    /// The subscriber has gone.
    Disconnected,
}

/// The state and the action that follow an event from the hub.
///
/// An active task answers every batch with exactly one push of what the
/// batch decodes to, and stays active. A lag or the closing of the feed end
/// the task, and a task that has ended stays so.
pub open spec fn after_hub_event(state: SubscriberState, event: HubEventView) -> (
    SubscriberState,
    SubscriberActionView,
) {
    match (state, event) {
        (SubscriberState::Active, HubEventView::Batch(batch)) => (
            SubscriberState::Active,
            SubscriberActionView::Push(batch_report(batch)),
        ),
        _ => (SubscriberState::Terminated, SubscriberActionView::Stop),
    }
}

/// The state that follows a push: the task goes on only if it was active
/// and the batch was delivered.
pub open spec fn after_push(state: SubscriberState, result: PushResult) -> SubscriberState {
    match (state, result) {
        (SubscriberState::Active, PushResult::Delivered) => SubscriberState::Active,
        _ => SubscriberState::Terminated,
    }
}

/// Decides what a subscriber's task does with an event from the hub.
pub fn on_hub_event(state: SubscriberState, event: HubEvent) -> (next: (
    SubscriberState,
    SubscriberAction,
))
    ensures
        (next.0, next.1@) == after_hub_event(state, event@),
{
    match (state, event) {
        (SubscriberState::Active, HubEvent::Batch(batch)) => (
            SubscriberState::Active,
            SubscriberAction::Push(decode_batch(&batch)),
        ),
        _ => (SubscriberState::Terminated, SubscriberAction::Stop),
    }
}

/// Decides whether a subscriber's task goes on after a push.
pub fn on_push_result(state: SubscriberState, result: PushResult) -> (next: SubscriberState)
    ensures
        next == after_push(state, result),
{
    match (state, result) {
        (SubscriberState::Active, PushResult::Delivered) => SubscriberState::Active,
        _ => SubscriberState::Terminated,
    }
}

/// What the shutdown supervisor does at the start of a round.
#[derive(Clone, Copy, Debug, PartialEq, Eq, Structural)]
pub enum WatchStep {
    /// Wait for a stop signal, for at most this many seconds.
    AwaitStop { seconds: u64 },
    /// End, leaving the server as it is.
    Finish,
}

/// What the shutdown supervisor does when its wait is over.
#[derive(Clone, Copy, Debug, PartialEq, Eq, Structural)]
pub enum WaitVerdict {
    /// Abort the server at once, without draining its streams, and end.
    AbortServer,
    /// Start the next round.
    WatchOn,
}

/// Decides how the supervisor starts a round: it ends once the exit flag is
/// set, and else waits for a stop signal for the polling interval.
pub fn before_wait(exit: bool) -> (step: WatchStep)
    ensures
        step == if exit {
            WatchStep::Finish
        } else {
            WatchStep::AwaitStop { seconds: STOP_POLL_SECONDS }
        },
{
    if exit {
        WatchStep::Finish
    } else {
        WatchStep::AwaitStop { seconds: STOP_POLL_SECONDS }
    }
}

/// Decides what follows a wait: a stop signal aborts the server, and a wait
/// that brought none leads to the next round.
pub fn after_wait(stop_received: bool) -> (verdict: WaitVerdict)
    ensures
        verdict == if stop_received {
            WaitVerdict::AbortServer
        } else {
            WaitVerdict::WatchOn
        },
{
    if stop_received {
        WaitVerdict::AbortServer
    } else {
        WaitVerdict::WatchOn
    }
}

} // verus!
