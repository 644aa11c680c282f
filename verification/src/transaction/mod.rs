//! Trade-event decoding for the supported on-chain programs.
//!
//! [`parse_transaction`] walks the instructions of a transaction, finds for
//! each the decoder registered for its program, and collects the events that
//! the decoders produce. An instruction that fails to decode is set aside with
//! its error and never stops the walk.

use vstd::prelude::*;
use azcz_parser::{azcz_outcome, parse_azcz_instruction, AZCZ_PROGRAM_ID};
use keys::{decode_program_id, program_key, same_key};
use pump_parser::{parse_pump_instruction, pump_outcome, PUMP_PROGRAM_ID};
use resolve::{transaction_hash, tx_hash};
use types::{
    event_views,
    instruction_views,
    key_views,
    outcome_view,
    DecodeError,
    DecodeOutcome,
    InstructionView,
    OutcomeView,
    TradeEvent,
    TradeEventView,
    TransactionView,
    VersionedTransaction,
};

pub mod args;
pub mod azcz_parser;
pub mod common;
pub mod guarantees;
pub mod keys;
pub mod pump_parser;
pub mod resolve;
pub mod types;

verus! {

/// The registered decoders, one for each supported program.
#[derive(Clone, Copy, Debug, PartialEq, Eq, Structural)]
pub enum ProgramDecoder {
    Pump,
    Azcz,
}

impl ProgramDecoder {
    /// The address of the program whose instructions the decoder takes.
    pub open spec fn program_id(self) -> Seq<char> {
        match self {
            ProgramDecoder::Pump => PUMP_PROGRAM_ID@,
            ProgramDecoder::Azcz => AZCZ_PROGRAM_ID@,
        }
    }

    /// What the decoder makes of an instruction of its program.
    pub open spec fn outcome(self, tx: TransactionView, ix: InstructionView) -> OutcomeView {
        match self {
            ProgramDecoder::Pump => pump_outcome(tx, ix),
            ProgramDecoder::Azcz => azcz_outcome(tx, ix),
        }
    }

    /// Whether `discriminator` selects one of the actions that the decoder
    /// knows.
    pub open spec fn handles(self, discriminator: u8) -> bool {
        match self {
            ProgramDecoder::Pump => discriminator == pump_parser::BUY_TOKENS_IX || discriminator
                == pump_parser::EXTENDED_SELL_IX || discriminator == pump_parser::CREATE_COIN_IX,
            ProgramDecoder::Azcz => discriminator == azcz_parser::BUY_TOKENS_IX,
        }
    }

    /// The name under which the decoder's failures are reported.
    pub open spec fn label(self) -> Seq<char> {
        match self {
            ProgramDecoder::Pump => "pump"@,
            ProgramDecoder::Azcz => "azcz"@,
        }
    }

    /// The address of the program whose instructions the decoder takes.
    pub fn address(&self) -> (address: &'static str)
        ensures
            address@ == self.program_id(),
    {
        match self {
            ProgramDecoder::Pump => PUMP_PROGRAM_ID,
            ProgramDecoder::Azcz => AZCZ_PROGRAM_ID,
        }
    }

    /// The name under which the decoder's failures are reported.
    pub fn name(&self) -> (name: &'static str)
        ensures
            name@ == self.label(),
    {
        match self {
            ProgramDecoder::Pump => "pump",
            ProgramDecoder::Azcz => "azcz",
        }
    }

    /// Runs the decoder on the instruction at `instruction_index`.
    pub fn decode(&self, transaction: &VersionedTransaction, instruction_index: usize) -> (outcome:
        DecodeOutcome)
        ensures
            outcome_view(outcome) == if instruction_index >= transaction@.instructions.len() {
                Some(Err(DecodeError::InstructionOutOfBounds))
            } else {
                self.outcome(transaction@, transaction@.instructions[instruction_index as int])
            },
    {
        match self {
            ProgramDecoder::Pump => parse_pump_instruction(transaction, instruction_index),
            ProgramDecoder::Azcz => parse_azcz_instruction(transaction, instruction_index),
        }
    }
}

/// The decoder registered for the program at `key`: the first, in the order
/// of registration, whose program has exactly that key.
pub open spec fn decoder_for(key: Seq<u8>) -> Option<ProgramDecoder> {
    if key == program_key(ProgramDecoder::Pump.program_id()) {
        Some(ProgramDecoder::Pump)
    } else if key == program_key(ProgramDecoder::Azcz.program_id()) {
        Some(ProgramDecoder::Azcz)
    } else {
        None
    }
}

/// The decoder that an instruction is routed to. There is none where the
/// instruction's program index points past the key table, nor where no
/// decoder is registered for its program.
pub open spec fn routed_decoder(tx: TransactionView, ix: InstructionView) -> Option<
    ProgramDecoder,
> {
    if ix.program_id_index >= tx.account_keys.len() {
        None
    } else {
        decoder_for(tx.account_keys[ix.program_id_index as int])
    }
}

/// What decoding makes of one instruction of a transaction.
pub open spec fn instruction_outcome(tx: TransactionView, ix: InstructionView) -> OutcomeView {
    match routed_decoder(tx, ix) {
        None => None,
        Some(decoder) => decoder.outcome(tx, ix),
    }
}

/// An instruction that was routed to a decoder and failed to decode.
#[derive(Clone, Copy, Debug, PartialEq, Eq, Structural)]
pub struct DecodeFailure {
    /// Position of the instruction in its transaction.
    pub instruction_index: usize,
    /// The decoder that took the instruction.
    pub decoder: ProgramDecoder,
    /// Why it produced no event.
    pub error: DecodeError,
}

/// The events of the first `n` instructions of a transaction, in order.
pub open spec fn events_of(tx: TransactionView, n: nat) -> Seq<TradeEventView>
    decreases n,
{
    if n == 0 {
        Seq::empty()
    } else {
        let before = events_of(tx, (n - 1) as nat);
        match instruction_outcome(tx, tx.instructions[n - 1]) {
            Some(Ok(event)) => before.push(event),
            _ => before,
        }
    }
}

/// The failures among the first `n` instructions of a transaction, in order.
pub open spec fn failures_of(tx: TransactionView, n: nat) -> Seq<DecodeFailure>
    decreases n,
{
    if n == 0 {
        Seq::empty()
    } else {
        let before = failures_of(tx, (n - 1) as nat);
        let ix = tx.instructions[n - 1];
        match instruction_outcome(tx, ix) {
            Some(Err(error)) => before.push(
                DecodeFailure {
                    instruction_index: (n - 1) as usize,
                    decoder: routed_decoder(tx, ix)->Some_0,
                    error: error,
                },
            ),
            _ => before,
        }
    }
}

/// All events of a transaction, in the order of its instructions.
pub open spec fn transaction_events(tx: TransactionView) -> Seq<TradeEventView> {
    events_of(tx, tx.instructions.len())
}

/// All decoding failures of a transaction, in the order of its instructions.
pub open spec fn transaction_failures(tx: TransactionView) -> Seq<DecodeFailure> {
    failures_of(tx, tx.instructions.len())
}

/// What decoding a transaction came to: its events, and the failures for
/// whoever keeps a log.
#[derive(Debug)]
pub struct TransactionReport {
    /// Identifier of the transaction, the context of every failure.
    pub tx_hash: String,
    /// One event for each instruction that decoded.
    pub events: Vec<TradeEvent>,
    /// One entry for each instruction that a decoder took and rejected.
    pub failures: Vec<DecodeFailure>,
}

/// Picks the decoder for the program at `key`, given the keys of the
/// programs in the order of registration: the first whose key is exactly
/// `key`.
pub fn select_decoder(key: &[u8; 32], pump: &[u8; 32], azcz: &[u8; 32]) -> (decoder: Option<
    ProgramDecoder,
>)
    ensures
        decoder == if key@ == pump@ {
            Some(ProgramDecoder::Pump)
        } else if key@ == azcz@ {
            Some(ProgramDecoder::Azcz)
        } else {
            None
        },
{
    if same_key(key, pump) {
        Some(ProgramDecoder::Pump)
    } else if same_key(key, azcz) {
        Some(ProgramDecoder::Azcz)
    } else {
        None
    }
}

/// Finds the decoder registered for the program at `key`.
pub fn find_decoder(key: &[u8; 32]) -> (decoder: Option<ProgramDecoder>)
    ensures
        decoder == decoder_for(key@),
{
    let pump = decode_program_id(ProgramDecoder::Pump.address());
    let azcz = decode_program_id(ProgramDecoder::Azcz.address());
    select_decoder(key, &pump, &azcz)
}

/// Finds the decoder for the instruction at `instruction_index`, if the
/// transaction has such an instruction and it is routed to one.
pub fn route_instruction(transaction: &VersionedTransaction, instruction_index: usize) -> (decoder:
    Option<ProgramDecoder>)
    ensures
        decoder == if instruction_index < transaction@.instructions.len() {
            routed_decoder(transaction@, transaction@.instructions[instruction_index as int])
        } else {
            None
        },
{
    let instructions = transaction.instructions();
    assert(instruction_views(instructions@).len() == instructions@.len());
    if instruction_index >= instructions.len() {
        return None;
    }
    let instruction = &instructions[instruction_index];
    assert(instruction_views(instructions@)[instruction_index as int] == instruction@);
    let static_keys = transaction.static_account_keys();
    assert(key_views(static_keys@).len() == static_keys@.len());
    let program_index = instruction.program_id_index as usize;
    if program_index >= static_keys.len() {
        return None;
    }
    assert(key_views(static_keys@)[program_index as int] == static_keys@[program_index as int]@);
    find_decoder(&static_keys[program_index])
}

/// Decodes every instruction of a transaction, keeping the events and the
/// failures apart.
pub fn decode_transaction(transaction: &VersionedTransaction) -> (report: TransactionReport)
    ensures
        report.tx_hash@ == tx_hash(transaction@),
        event_views(report.events@) == transaction_events(transaction@),
        report.failures@ == transaction_failures(transaction@),
{
    let mut events: Vec<TradeEvent> = Vec::new();
    let mut failures: Vec<DecodeFailure> = Vec::new();
    let instructions = transaction.instructions();
    let count = instructions.len();
    assert(instruction_views(instructions@).len() == count);

    let mut instruction_index: usize = 0;
    while instruction_index < count
        invariant
            instruction_index <= count == transaction@.instructions.len(),
            event_views(events@) == events_of(transaction@, instruction_index as nat),
            failures@ == failures_of(transaction@, instruction_index as nat),
        decreases count - instruction_index,
    {
        if let Some(decoder) = route_instruction(transaction, instruction_index) {
            match decoder.decode(transaction, instruction_index) {
                Some(Ok(event)) => {
                    let ghost before = events@;
                    events.push(event);
                    assert(event_views(events@) =~= event_views(before).push(event@));
                },
                Some(Err(error)) => {
                    failures.push(DecodeFailure { instruction_index, decoder, error });
                },
                None => {},
            }
        }
        instruction_index += 1;
    }
    TransactionReport { tx_hash: transaction_hash(transaction), events, failures }
}

/// Decodes a transaction into its trade events: one for each instruction of
/// a supported program that decodes, in the order of the instructions.
pub fn parse_transaction(transaction: &VersionedTransaction) -> (events: Vec<TradeEvent>)
    ensures
        event_views(events@) == transaction_events(transaction@),
{
    decode_transaction(transaction).events
}

} // verus!
