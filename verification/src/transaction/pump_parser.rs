//! Decoder for the instructions of the pump program.

use vstd::prelude::*;
use crate::transaction::args::{parse_tolerant_args, tolerant_args};
use crate::transaction::common::{sol_amount_text, token_amount_text};
use crate::transaction::resolve::{
    build_event,
    resolve_accounts,
    resolved_accounts,
    result_view,
    trade_event,
};
use crate::transaction::types::{
    instruction_views,
    outcome_view,
    CompiledInstruction,
    DecodeError,
    DecodeOutcome,
    InstructionView,
    OutcomeView,
    TradeEvent,
    TradeEventView,
    TradeKind,
    TransactionView,
    VersionedTransaction,
};

verus! {

/// Address of the wrapped native asset, the quote side of every trade.
pub const WSOL_MINT: &'static str = crate::transaction::common::WSOL_MINT;

/// Address of the pump program.
pub const PUMP_PROGRAM_ID: &'static str = "6EF8rrecthR5Dkzon8Nwu78hRvfCKubJ14M5uBEwF6P";

/// Tag under which the events of the pump program are published.
pub const PUMP_PROGRAM_TAG: &'static str = "pump";

/// Discriminator of the instruction that creates a coin.
pub const CREATE_COIN_IX: u8 = 24;

/// Discriminator of the instruction that sells tokens.
pub const EXTENDED_SELL_IX: u8 = 51;

/// Discriminator of the instruction that buys tokens.
pub const BUY_TOKENS_IX: u8 = 102;

/// Number of bytes that precede the arguments of a buy or a sell.
pub const ARGS_OFFSET: usize = 8;

/// Position of the mint in the account list of a creation.
pub const CREATE_MINT_SLOT: usize = 0;

/// Position of the mint in the account list of a buy or a sell.
pub const TRADE_MINT_SLOT: usize = 2;

/// Position of the creator, buyer or seller in the account list.
pub const TRADER_SLOT: usize = 7;

/// The event of a coin creation, or why there is none.
///
/// A creation moves no quantities: both amounts are zero.
pub open spec fn pump_create(tx: TransactionView, ix: InstructionView) -> Result<
    TradeEventView,
    DecodeError,
> {
    match resolved_accounts(tx, ix, CREATE_MINT_SLOT as int, TRADER_SLOT as int) {
        Err(e) => Err(e),
        Ok((mint, creator)) => Ok(
            trade_event(
                tx,
                mint,
                creator,
                token_amount_text(0),
                sol_amount_text(0),
                PUMP_PROGRAM_TAG@,
                TradeKind::Create,
            ),
        ),
    }
}

/// The event of a buy or a sell, or why there is none.
///
/// The accounts are looked up first, then the arguments are decoded. The
/// first argument is the token quantity, the second the native-asset
/// quantity.
pub open spec fn pump_trade(tx: TransactionView, ix: InstructionView, kind: TradeKind) -> Result<
    TradeEventView,
    DecodeError,
> {
    match resolved_accounts(tx, ix, TRADE_MINT_SLOT as int, TRADER_SLOT as int) {
        Err(e) => Err(e),
        Ok((mint, trader)) => match tolerant_args(ix.data, ARGS_OFFSET as int) {
            None => Err(DecodeError::DeserializeFailure),
            Some((amount, sol)) => Ok(
                trade_event(
                    tx,
                    mint,
                    trader,
                    token_amount_text(amount),
                    sol_amount_text(sol),
                    PUMP_PROGRAM_TAG@,
                    kind,
                ),
            ),
        },
    }
}

/// What the pump decoder makes of an instruction: an error for empty data,
/// the decoding that the first data byte selects, and nothing where that
/// byte selects none.
pub open spec fn pump_outcome(tx: TransactionView, ix: InstructionView) -> OutcomeView {
    if ix.data.len() == 0 {
        Some(Err(DecodeError::DataEmpty))
    } else if ix.data[0] == BUY_TOKENS_IX {
        Some(pump_trade(tx, ix, TradeKind::Buy))
    } else if ix.data[0] == EXTENDED_SELL_IX {
        Some(pump_trade(tx, ix, TradeKind::Sell))
    } else if ix.data[0] == CREATE_COIN_IX {
        Some(pump_create(tx, ix))
    } else {
        None
    }
}

/// What the pump decoder makes of the instruction at `index`, if there is
/// one.
pub open spec fn pump_outcome_at(tx: TransactionView, index: int) -> OutcomeView {
    if index >= tx.instructions.len() {
        Some(Err(DecodeError::InstructionOutOfBounds))
    } else {
        pump_outcome(tx, tx.instructions[index])
    }
}

/// Decodes a coin creation.
pub fn parse_create_coin_args(
    transaction: &VersionedTransaction,
    instruction: &CompiledInstruction,
) -> (result: Result<TradeEvent, DecodeError>)
    ensures
        result_view(result) == pump_create(transaction@, instruction@),
{
    match resolve_accounts(transaction, instruction, CREATE_MINT_SLOT, TRADER_SLOT) {
        Err(e) => Err(e),
        Ok((mint, creator)) => Ok(
            build_event(
                transaction,
                &mint,
                &creator,
                format_token_amount(0),
                format_sol_amount(0),
                PUMP_PROGRAM_TAG,
                TradeKind::Create,
            ),
        ),
    }
}

fn parse_trade_args(
    transaction: &VersionedTransaction,
    instruction: &CompiledInstruction,
    kind: TradeKind,
) -> (result: Result<TradeEvent, DecodeError>)
    ensures
        result_view(result) == pump_trade(transaction@, instruction@, kind),
{
    let (mint, trader) = match resolve_accounts(
        transaction,
        instruction,
        TRADE_MINT_SLOT,
        TRADER_SLOT,
    ) {
        Ok(accounts) => accounts,
        Err(e) => {
            return Err(e);
        },
    };
    match parse_tolerant_args(instruction.data.as_slice(), ARGS_OFFSET) {
        None => Err(DecodeError::DeserializeFailure),
        Some((amount, sol)) => Ok(
            build_event(
                transaction,
                &mint,
                &trader,
                format_token_amount(amount),
                format_sol_amount(sol),
                PUMP_PROGRAM_TAG,
                kind,
            ),
        ),
    }
}

/// Decodes a buy: the token quantity and the most the buyer pays for it.
pub fn parse_buy_tokens_args(
    transaction: &VersionedTransaction,
    instruction: &CompiledInstruction,
) -> (result: Result<TradeEvent, DecodeError>)
    ensures
        result_view(result) == pump_trade(transaction@, instruction@, TradeKind::Buy),
{
    parse_trade_args(transaction, instruction, TradeKind::Buy)
}

/// Decodes a sell: the token quantity and the least the seller takes for it.
pub fn parse_sell_tokens_args(
    transaction: &VersionedTransaction,
    instruction: &CompiledInstruction,
) -> (result: Result<TradeEvent, DecodeError>)
    ensures
        result_view(result) == pump_trade(transaction@, instruction@, TradeKind::Sell),
{
    parse_trade_args(transaction, instruction, TradeKind::Sell)
}

/// Renders a raw base-token quantity as `amount / 1_000_000` with six
/// fractional digits.
pub fn format_token_amount(amount: u64) -> (s: String)
    ensures
        s@ == token_amount_text(amount),
{
    crate::transaction::common::format_token_amount(amount)
}

/// Renders a raw native-asset quantity as `lamports / 1_000_000_000` with nine
/// fractional digits.
pub fn format_sol_amount(lamports: u64) -> (s: String)
    ensures
        s@ == sol_amount_text(lamports),
{
    crate::transaction::common::format_sol_amount(lamports)
}

/// Decodes the instruction at `instruction_index` as one of the pump
/// program: `None` where its discriminator is none of the program's
/// actions, else the event or the reason why there is none.
pub fn parse_pump_instruction(
    transaction: &VersionedTransaction,
    instruction_index: usize,
) -> (outcome: DecodeOutcome)
    ensures
        outcome_view(outcome) == pump_outcome_at(transaction@, instruction_index as int),
{
    let instructions = transaction.instructions();
    assert(instruction_views(instructions@).len() == instructions@.len());
    if instruction_index >= instructions.len() {
        return Some(Err(DecodeError::InstructionOutOfBounds));
    }
    let instruction = &instructions[instruction_index];
    assert(instruction_views(instructions@)[instruction_index as int] == instruction@);
    if instruction.data.len() == 0 {
        return Some(Err(DecodeError::DataEmpty));
    }
    let discriminator = instruction.data[0];
    if discriminator == BUY_TOKENS_IX {
        Some(parse_buy_tokens_args(transaction, instruction))
    } else if discriminator == EXTENDED_SELL_IX {
        Some(parse_sell_tokens_args(transaction, instruction))
    } else if discriminator == CREATE_COIN_IX {
        Some(parse_create_coin_args(transaction, instruction))
    } else {
        None
    }
}

} // verus!
