//! Decoder for the instructions of the AzcZ program.

use vstd::prelude::*;
use crate::transaction::args::{parse_strict_args, strict_args};
use crate::transaction::common::{
    format_sol_amount,
    format_token_amount,
    sol_amount_text,
    token_amount_text,
};
use crate::transaction::resolve::{
    build_event,
    resolve_accounts,
    resolved_accounts,
    result_view,
    trade_event,
};
use crate::transaction::types::{
    instruction_views,
    outcome_view,
    CompiledInstruction,
    DecodeError,
    DecodeOutcome,
    InstructionView,
    OutcomeView,
    TradeEvent,
    TradeEventView,
    TradeKind,
    TransactionView,
    VersionedTransaction,
};

verus! {

/// Address of the AzcZ program.
pub const AZCZ_PROGRAM_ID: &'static str = "AzcZqCRUQgKEg5FTAgY7JacATABEYCEfMbjXEzspLYFB";

/// Tag under which the events of the AzcZ program are published: they
/// appear among those of the pump program.
pub const AZCZ_PROGRAM_TAG: &'static str = "pump";

/// Discriminator of the instruction that buys tokens.
pub const BUY_TOKENS_IX: u8 = 11;

/// Number of bytes that precede the arguments of a buy.
pub const ARGS_OFFSET: usize = 1;

/// Position of the mint in the account list of a buy.
pub const MINT_SLOT: usize = 3;

/// Position of the buyer in the account list of a buy.
pub const USER_SLOT: usize = 7;

/// The event of a buy, or why there is none.
///
/// The accounts are looked up first, then the arguments are decoded; only
/// the structured layout is accepted. The first argument is the native-asset
/// quantity, the second the token quantity.
pub open spec fn azcz_buy(tx: TransactionView, ix: InstructionView) -> Result<
    TradeEventView,
    DecodeError,
> {
    match resolved_accounts(tx, ix, MINT_SLOT as int, USER_SLOT as int) {
        Err(e) => Err(e),
        Ok((mint, user)) => match strict_args(ix.data, ARGS_OFFSET as int) {
            None => Err(DecodeError::DeserializeFailure),
            Some((sol, amount)) => Ok(
                trade_event(
                    tx,
                    mint,
                    user,
                    token_amount_text(amount),
                    sol_amount_text(sol),
                    AZCZ_PROGRAM_TAG@,
                    TradeKind::Buy,
                ),
            ),
        },
    }
}

/// What the AzcZ decoder makes of an instruction: an error for empty data,
/// the decoding of a buy where the first data byte selects it, and nothing
/// otherwise.
pub open spec fn azcz_outcome(tx: TransactionView, ix: InstructionView) -> OutcomeView {
    if ix.data.len() == 0 {
        Some(Err(DecodeError::DataEmpty))
    } else if ix.data[0] == BUY_TOKENS_IX {
        Some(azcz_buy(tx, ix))
    } else {
        None
    }
}

/// What the AzcZ decoder makes of the instruction at `index`, if there is
/// one.
pub open spec fn azcz_outcome_at(tx: TransactionView, index: int) -> OutcomeView {
    if index >= tx.instructions.len() {
        Some(Err(DecodeError::InstructionOutOfBounds))
    } else {
        azcz_outcome(tx, tx.instructions[index])
    }
}

/// Decodes a buy: what the buyer pays and the token quantity bought.
pub fn parse_buy_tokens_args(
    transaction: &VersionedTransaction,
    instruction: &CompiledInstruction,
) -> (result: Result<TradeEvent, DecodeError>)
    ensures
        result_view(result) == azcz_buy(transaction@, instruction@),
{
    let (mint, user) = match resolve_accounts(transaction, instruction, MINT_SLOT, USER_SLOT) {
        Ok(accounts) => accounts,
        Err(e) => {
            return Err(e);
        },
    };
    match parse_strict_args(instruction.data.as_slice(), ARGS_OFFSET) {
        None => Err(DecodeError::DeserializeFailure),
        Some((sol, amount)) => Ok(
            build_event(
                transaction,
                &mint,
                &user,
                format_token_amount(amount),
                format_sol_amount(sol),
                AZCZ_PROGRAM_TAG,
                TradeKind::Buy,
            ),
        ),
    }
}

/// Decodes the instruction at `instruction_index` as one of the AzcZ
/// program: `None` where its discriminator is none of the program's
/// actions, else the event or the reason why there is none.
pub fn parse_azcz_instruction(
    transaction: &VersionedTransaction,
    instruction_index: usize,
) -> (outcome: DecodeOutcome)
    ensures
        outcome_view(outcome) == azcz_outcome_at(transaction@, instruction_index as int),
{
    let instructions = transaction.instructions();
    assert(instruction_views(instructions@).len() == instructions@.len());
    if instruction_index >= instructions.len() {
        return Some(Err(DecodeError::InstructionOutOfBounds));
    }
    let instruction = &instructions[instruction_index];
    assert(instruction_views(instructions@)[instruction_index as int] == instruction@);
    if instruction.data.len() == 0 {
        return Some(Err(DecodeError::DataEmpty));
    }
    let discriminator = instruction.data[0];
    if discriminator == BUY_TOKENS_IX {
        Some(parse_buy_tokens_args(transaction, instruction))
    } else {
        None
    }
}

} // verus!
