//! The data the decoders work on: a transaction as plain bytes, the trade
//! event they produce, and the ways decoding can fail.

use vstd::prelude::*;

verus! {

/// An instruction as embedded in a transaction: the program and the accounts
/// are indices into the transaction's table of account keys.
#[derive(Clone, Debug)]
pub struct CompiledInstruction {
    pub program_id_index: u8,
    pub accounts: Vec<u8>,
    pub data: Vec<u8>,
}

/// Mathematical content of a [`CompiledInstruction`].
pub struct InstructionView {
    pub program_id_index: u8,
    pub accounts: Seq<u8>,
    pub data: Seq<u8>,
}

impl View for CompiledInstruction {
    type V = InstructionView;

    open spec fn view(&self) -> InstructionView {
        InstructionView {
            program_id_index: self.program_id_index,
            accounts: self.accounts@,
            data: self.data@,
        }
    }
}

/// The byte sequences of a list of account keys.
pub open spec fn key_views(keys: Seq<[u8; 32]>) -> Seq<Seq<u8>> {
    Seq::new(keys.len(), |i: int| keys[i]@)
}

/// The byte sequences of a list of signatures.
pub open spec fn signature_views(signatures: Seq<[u8; 64]>) -> Seq<Seq<u8>> {
    Seq::new(signatures.len(), |i: int| signatures[i]@)
}

/// The views of a list of instructions.
pub open spec fn instruction_views(instructions: Seq<CompiledInstruction>) -> Seq<InstructionView> {
    Seq::new(instructions.len(), |i: int| instructions[i]@)
}

/// Mathematical content of a [`VersionedTransaction`].
pub struct TransactionView {
    pub signatures: Seq<Seq<u8>>,
    pub account_keys: Seq<Seq<u8>>,
    pub instructions: Seq<InstructionView>,
}

/// What the decoders read of a ledger transaction: its signatures, its table
/// of static account keys and its instructions, in order.
///
/// A transaction always carries at least one signature; the first one
/// identifies it.
#[derive(Debug)]
pub struct VersionedTransaction {
    signatures: Vec<[u8; 64]>,
    account_keys: Vec<[u8; 32]>,
    instructions: Vec<CompiledInstruction>,
}

impl View for VersionedTransaction {
    type V = TransactionView;

    closed spec fn view(&self) -> TransactionView {
        TransactionView {
            signatures: signature_views(self.signatures@),
            account_keys: key_views(self.account_keys@),
            instructions: instruction_views(self.instructions@),
        }
    }
}

impl VersionedTransaction {
    #[verifier::type_invariant]
    spec fn is_signed(self) -> bool {
        self.signatures@.len() > 0
    }

    /// Assembles a transaction. There is none without a signature.
    pub fn new(
        signatures: Vec<[u8; 64]>,
        account_keys: Vec<[u8; 32]>,
        instructions: Vec<CompiledInstruction>,
    ) -> (tx: Option<Self>)
        ensures
            tx is Some <==> signatures@.len() > 0,
            tx matches Some(t) ==> t@ == (TransactionView {
                signatures: signature_views(signatures@),
                account_keys: key_views(account_keys@),
                instructions: instruction_views(instructions@),
            }),
    {
        if signatures.len() == 0 {
            None
        } else {
            Some(VersionedTransaction { signatures, account_keys, instructions })
        }
    }

    /// The signatures, of which there is at least one.
    pub fn signatures(&self) -> (signatures: &Vec<[u8; 64]>)
        ensures
            signatures@.len() > 0,
            signature_views(signatures@) == self@.signatures,
    {
        proof {
            use_type_invariant(self);
        }
        &self.signatures
    }

    /// The table of account keys that instructions index into.
    pub fn static_account_keys(&self) -> (keys: &Vec<[u8; 32]>)
        ensures
            key_views(keys@) == self@.account_keys,
    {
        &self.account_keys
    }

    /// The instructions, in execution order.
    pub fn instructions(&self) -> (instructions: &Vec<CompiledInstruction>)
        ensures
            instruction_views(instructions@) == self@.instructions,
    {
        &self.instructions
    }
}

/// Which action of a program a trade event records.
#[derive(Clone, Copy, Debug, PartialEq, Eq, Structural)]
pub enum TradeKind {
    Create,
    Buy,
    Sell,
}

impl TradeKind {
    /// The tag under which the action is published.
    pub open spec fn tag(self) -> Seq<char> {
        match self {
            TradeKind::Create => "create"@,
            TradeKind::Buy => "buy"@,
            TradeKind::Sell => "sell"@,
        }
    }

    /// The tag under which the action is published.
    pub fn as_str(&self) -> (s: &'static str)
        ensures
            s@ == self.tag(),
    {
        match self {
            TradeKind::Create => "create",
            TradeKind::Buy => "buy",
            TradeKind::Sell => "sell",
        }
    }
}

/// A decoded trade: who traded which token against the native asset, in what
/// quantities, under which program and action.
#[derive(Clone, Debug)]
pub struct TradeEvent {
    pub tx_hash: String,
    pub maker: String,
    pub token0_address: String,
    pub token1_address: String,
    pub token0_amount: String,
    pub token1_amount: String,
    pub program: String,
    pub event: String,
}

/// Mathematical content of a [`TradeEvent`].
pub struct TradeEventView {
    pub tx_hash: Seq<char>,
    pub maker: Seq<char>,
    pub token0_address: Seq<char>,
    pub token1_address: Seq<char>,
    pub token0_amount: Seq<char>,
    pub token1_amount: Seq<char>,
    pub program: Seq<char>,
    pub event: Seq<char>,
}

impl View for TradeEvent {
    type V = TradeEventView;

    open spec fn view(&self) -> TradeEventView {
        TradeEventView {
            tx_hash: self.tx_hash@,
            maker: self.maker@,
            token0_address: self.token0_address@,
            token1_address: self.token1_address@,
            token0_amount: self.token0_amount@,
            token1_amount: self.token1_amount@,
            program: self.program@,
            event: self.event@,
        }
    }
}

/// The views of a list of trade events.
pub open spec fn event_views(events: Seq<TradeEvent>) -> Seq<TradeEventView> {
    Seq::new(events.len(), |i: int| events[i]@)
}

/// The account of an instruction that a decoder looks up in the key table.
#[derive(Clone, Copy, Debug, PartialEq, Eq, Structural)]
pub enum AccountRole {
    /// The token being created or traded.
    Mint,
    /// The creator, buyer or seller.
    Trader,
}

/// Why an instruction of a supported program yielded no trade event.
#[derive(Clone, Copy, Debug, PartialEq, Eq, Structural)]
pub enum DecodeError {
    /// The transaction has no instruction at the given position.
    InstructionOutOfBounds,
    /// The instruction carries no data, so not even a discriminator.
    DataEmpty,
    /// The instruction lists fewer accounts than the program's layout names.
    AccountsTooShort,
    /// The account in the given role points past the end of the key table.
    IndexOutOfBounds(AccountRole),
    /// The argument payload fits neither the structured nor the fixed-offset
    /// layout.
    DeserializeFailure,
}

/// What decoding one instruction came to: nothing to report, an event, or a
/// failure.
pub type DecodeOutcome = Option<Result<TradeEvent, DecodeError>>;

/// Mathematical content of a [`DecodeOutcome`].
pub type OutcomeView = Option<Result<TradeEventView, DecodeError>>;

/// The view of a decoding outcome: that of the event, where there is one.
pub open spec fn outcome_view(outcome: DecodeOutcome) -> OutcomeView {
    match outcome {
        None => None,
        Some(Err(e)) => Some(Err(e)),
        Some(Ok(event)) => Some(Ok(event@)),
    }
}

} // verus!
