//! What holds of every decoded transaction.

use vstd::prelude::*;
use crate::transaction::common::{
    is_fixed_point,
    lemma_fixed_point,
    sol_amount_text,
    token_amount_text,
    SOL_DECIMALS,
    TOKEN_DECIMALS,
    WSOL_MINT,
};
use crate::transaction::keys::{program_key, pubkey_text};
use crate::transaction::resolve::{tx_hash, MIN_ACCOUNTS};
use crate::transaction::types::{
    DecodeError,
    InstructionView,
    OutcomeView,
    TradeEventView,
    TradeKind,
    TransactionView,
};
use crate::transaction::{
    events_of,
    failures_of,
    instruction_outcome,
    routed_decoder,
    transaction_events,
    transaction_failures,
    DecodeFailure,
    ProgramDecoder,
};

verus! {

/// What every event of the transaction `tx` has in common: it carries the
/// transaction's identifier, names two accounts of the transaction and the
/// native asset, gives its amounts with six and nine fractional digits, and
/// records one of the three actions.
pub open spec fn is_event_of(tx: TransactionView, event: TradeEventView) -> bool {
    &&& event.tx_hash == tx_hash(tx)
    &&& exists|i: int|
        0 <= i < tx.account_keys.len() && event.maker == pubkey_text(#[trigger] tx.account_keys[i])
    &&& exists|i: int|
        0 <= i < tx.account_keys.len() && event.token0_address == pubkey_text(
            #[trigger] tx.account_keys[i],
        )
    &&& event.token1_address == WSOL_MINT@
    &&& is_fixed_point(event.token0_amount, TOKEN_DECIMALS as nat)
    &&& is_fixed_point(event.token1_amount, SOL_DECIMALS as nat)
    &&& exists|kind: TradeKind| event.event == #[trigger] kind.tag()
}

/// An instruction is routed to a decoder only if its program index lies in
/// the key table and the key there is exactly that of the decoder's program.
pub proof fn lemma_routing_is_by_exact_key(tx: TransactionView, ix: InstructionView)
    ensures
        routed_decoder(tx, ix) matches Some(decoder) ==> ix.program_id_index
            < tx.account_keys.len() && tx.account_keys[ix.program_id_index as int] == program_key(
            decoder.program_id(),
        ),
        ix.program_id_index >= tx.account_keys.len() ==> routed_decoder(tx, ix) is None,
{
}

/// An instruction without data, taken by a decoder, fails with `DataEmpty`.
pub proof fn lemma_empty_data_is_rejected(tx: TransactionView, ix: InstructionView)
    requires
        routed_decoder(tx, ix) is Some,
        ix.data.len() == 0,
    ensures
        instruction_outcome(tx, ix) == Some::<Result<TradeEventView, DecodeError>>(
            Err(DecodeError::DataEmpty),
        ),
{
}

/// An instruction of a supported program whose discriminator selects a known
/// action, but which lists fewer than eight accounts, fails with
/// `AccountsTooShort`, whatever its payload holds.
pub proof fn lemma_short_accounts_are_rejected(tx: TransactionView, ix: InstructionView)
    requires
        routed_decoder(tx, ix) matches Some(decoder) && ix.data.len() > 0 && decoder.handles(
            ix.data[0],
        ),
        ix.accounts.len() < MIN_ACCOUNTS,
    ensures
        instruction_outcome(tx, ix) == Some::<Result<TradeEventView, DecodeError>>(
            Err(DecodeError::AccountsTooShort),
        ),
{
}

/// An instruction whose program has no decoder, or whose program index
/// points nowhere, has no outcome: neither an event nor a failure.
pub proof fn lemma_unknown_program_has_no_outcome(tx: TransactionView, ix: InstructionView)
    requires
        routed_decoder(tx, ix) is None,
    ensures
        instruction_outcome(tx, ix) is None,
{
}

/// An instruction of a supported program whose discriminator selects a known
/// action has an outcome: an event, or the reason why there is none.
pub proof fn lemma_known_action_has_outcome(tx: TransactionView, ix: InstructionView)
    requires
        routed_decoder(tx, ix) matches Some(decoder) && ix.data.len() > 0 && decoder.handles(
            ix.data[0],
        ),
    ensures
        instruction_outcome(tx, ix) is Some,
{
}

/// An instruction of a supported program whose discriminator selects no
/// known action has no outcome either: the decoder was found, the action
/// was not.
pub proof fn lemma_unknown_action_has_no_outcome(tx: TransactionView, ix: InstructionView)
    requires
        routed_decoder(tx, ix) matches Some(decoder) && ix.data.len() > 0 && !decoder.handles(
            ix.data[0],
        ),
    ensures
        instruction_outcome(tx, ix) is None,
{
}

/// Each instruction adds to what the instructions before it gave: one event
/// where it decodes, one failure where its decoder rejects it, and nothing
/// at all where it has no outcome.
pub proof fn lemma_instruction_contributes(tx: TransactionView, index: nat)
    ensures
        match instruction_outcome(tx, tx.instructions[index as int]) {
            None => {
                &&& events_of(tx, index + 1) == events_of(tx, index)
                &&& failures_of(tx, index + 1) == failures_of(tx, index)
            },
            Some(Ok(event)) => {
                &&& events_of(tx, index + 1) == events_of(tx, index).push(event)
                &&& failures_of(tx, index + 1) == failures_of(tx, index)
            },
            Some(Err(error)) => {
                &&& events_of(tx, index + 1) == events_of(tx, index)
                &&& failures_of(tx, index + 1) == failures_of(tx, index).push(
                    DecodeFailure {
                        instruction_index: index as usize,
                        decoder: routed_decoder(tx, tx.instructions[index as int])->Some_0,
                        error: error,
                    },
                )
            },
        },
{
}

/// What an instruction decodes to depends on the instruction itself, on the
/// key table and on the first signature, and on nothing else of its
/// transaction.
pub proof fn lemma_outcome_is_local(tx: TransactionView, other: TransactionView, ix: InstructionView)
    requires
        tx.signatures[0] == other.signatures[0],
        tx.account_keys == other.account_keys,
    ensures
        routed_decoder(tx, ix) == routed_decoder(other, ix),
        instruction_outcome(tx, ix) == instruction_outcome(other, ix),
{
}

/// The transaction `tx` with the instruction `ix` put in at position `at`.
pub open spec fn with_instruction(tx: TransactionView, at: int, ix: InstructionView) -> TransactionView {
    TransactionView {
        signatures: tx.signatures,
        account_keys: tx.account_keys,
        instructions: tx.instructions.insert(at, ix),
    }
}

proof fn lemma_events_around_insertion(tx: TransactionView, at: int, ix: InstructionView, n: nat)
    requires
        0 <= at <= tx.instructions.len(),
        !(instruction_outcome(tx, ix) matches Some(Ok(_))),
        n <= tx.instructions.len() + 1,
    ensures
        events_of(with_instruction(tx, at, ix), n) == if n <= at {
            events_of(tx, n)
        } else {
            events_of(tx, (n - 1) as nat)
        },
    decreases n,
{
    let other = with_instruction(tx, at, ix);
    if n > 0 {
        lemma_events_around_insertion(tx, at, ix, (n - 1) as nat);
        let last = other.instructions[n - 1];
        lemma_outcome_is_local(tx, other, last);
        if n - 1 < at {
            assert(last == tx.instructions[n - 1]);
        } else if n - 1 == at {
            assert(last == ix);
        } else {
            assert(last == tx.instructions[n - 2]);
        }
    }
}

/// An instruction that yields no event takes nothing from the others: with
/// it or without it, the transaction has the same events. This holds in
/// particular of an instruction without data.
pub proof fn lemma_failure_spares_the_others(tx: TransactionView, at: int, ix: InstructionView)
    requires
        0 <= at <= tx.instructions.len(),
        ix.data.len() == 0 || !(instruction_outcome(tx, ix) matches Some(Ok(_))),
    ensures
        transaction_events(with_instruction(tx, at, ix)) == transaction_events(tx),
{
    lemma_events_around_insertion(tx, at, ix, tx.instructions.len() + 1);
}

/// Whatever an instruction decodes to, it is an event of its transaction.
pub proof fn lemma_outcome_is_event_of(tx: TransactionView, ix: InstructionView)
    ensures
        instruction_outcome(tx, ix) matches Some(Ok(event)) ==> is_event_of(tx, event),
{
    if let Some(Ok(event)) = instruction_outcome(tx, ix) {
        let decoder = routed_decoder(tx, ix)->Some_0;
        let outcome: OutcomeView = decoder.outcome(tx, ix);
        assert(ix.accounts.len() >= MIN_ACCOUNTS);
        assert forall|amount: u64| is_fixed_point(#[trigger] token_amount_text(amount), 6) by {
            lemma_fixed_point(amount as nat, 6);
        }
        assert forall|amount: u64| is_fixed_point(#[trigger] sol_amount_text(amount), 9) by {
            lemma_fixed_point(amount as nat, 9);
        }
        let kind = if event.event == TradeKind::Buy.tag() {
            TradeKind::Buy
        } else if event.event == TradeKind::Sell.tag() {
            TradeKind::Sell
        } else {
            TradeKind::Create
        };
        assert(event.event == kind.tag());
        let trader = ix.accounts[7] as int;
        assert(event.maker == pubkey_text(tx.account_keys[trader]));
        let mint = if decoder == ProgramDecoder::Azcz {
            ix.accounts[3] as int
        } else if ix.data[0] == crate::transaction::pump_parser::CREATE_COIN_IX {
            ix.accounts[0] as int
        } else {
            ix.accounts[2] as int
        };
        assert(event.token0_address == pubkey_text(tx.account_keys[mint]));
    }
}

proof fn lemma_prefix_events(tx: TransactionView, n: nat)
    ensures
        forall|i: int| 0 <= i < events_of(tx, n).len() ==> is_event_of(tx, #[trigger] events_of(tx, n)[i]),
        events_of(tx, n).len() + failures_of(tx, n).len() <= n,
        forall|i: int|
            0 <= i < failures_of(tx, n).len() ==> (#[trigger] failures_of(tx, n)[i]).instruction_index
                < n,
    decreases n,
{
    if n > 0 {
        lemma_prefix_events(tx, (n - 1) as nat);
        lemma_outcome_is_event_of(tx, tx.instructions[n - 1]);
    }
}

/// Every event of a transaction carries the transaction's identifier and
/// amounts of the fixed form; there is at most one event or failure for each
/// instruction, and every failure points at an instruction of the
/// transaction.
pub proof fn lemma_transaction_events(tx: TransactionView)
    ensures
        forall|i: int|
            0 <= i < transaction_events(tx).len() ==> is_event_of(
                tx,
                #[trigger] transaction_events(tx)[i],
            ),
        transaction_events(tx).len() + transaction_failures(tx).len() <= tx.instructions.len(),
        forall|i: int|
            0 <= i < transaction_failures(tx).len() ==> (#[trigger] transaction_failures(
                tx,
            )[i]).instruction_index < tx.instructions.len(),
{
    lemma_prefix_events(tx, tx.instructions.len());
}

} // verus!
