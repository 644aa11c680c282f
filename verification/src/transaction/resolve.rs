//! What every decoder does alike: look up the accounts an instruction names,
//! and assemble the trade event.

use vstd::prelude::*;
use crate::transaction::common::WSOL_MINT;
use crate::transaction::keys::{pubkey_text, pubkey_to_string, signature_text, signature_to_string};
use crate::transaction::types::{
    key_views,
    signature_views,
    AccountRole,
    CompiledInstruction,
    DecodeError,
    InstructionView,
    TradeEvent,
    TradeEventView,
    TradeKind,
    TransactionView,
    VersionedTransaction,
};

verus! {

/// The least number of accounts that an instruction of a supported program
/// lists.
pub const MIN_ACCOUNTS: usize = 8;

/// The keys of the mint and of the trader of an instruction, which it names
/// at the positions `mint_slot` and `trader_slot` of its account list.
///
/// The list must reach the minimum length, then the mint must lie inside
/// the key table, then the trader.
pub open spec fn resolved_accounts(
    tx: TransactionView,
    ix: InstructionView,
    mint_slot: int,
    trader_slot: int,
) -> Result<(Seq<u8>, Seq<u8>), DecodeError> {
    if ix.accounts.len() < MIN_ACCOUNTS {
        Err(DecodeError::AccountsTooShort)
    } else if ix.accounts[mint_slot] >= tx.account_keys.len() {
        Err(DecodeError::IndexOutOfBounds(AccountRole::Mint))
    } else if ix.accounts[trader_slot] >= tx.account_keys.len() {
        Err(DecodeError::IndexOutOfBounds(AccountRole::Trader))
    } else {
        Ok(
            (
                tx.account_keys[ix.accounts[mint_slot] as int],
                tx.account_keys[ix.accounts[trader_slot] as int],
            ),
        )
    }
}

/// The identifier of a transaction: its first signature, as text.
pub open spec fn tx_hash(tx: TransactionView) -> Seq<char> {
    signature_text(tx.signatures[0])
}

/// The event that records a trade of the token `mint` by `trader`, with the
/// amounts already rendered.
pub open spec fn trade_event(
    tx: TransactionView,
    mint: Seq<u8>,
    trader: Seq<u8>,
    token_amount: Seq<char>,
    sol_amount: Seq<char>,
    program: Seq<char>,
    kind: TradeKind,
) -> TradeEventView {
    TradeEventView {
        tx_hash: tx_hash(tx),
        maker: pubkey_text(trader),
        token0_address: pubkey_text(mint),
        token1_address: WSOL_MINT@,
        token0_amount: token_amount,
        token1_amount: sol_amount,
        program: program,
        event: kind.tag(),
    }
}

/// The view of a decoder's result: that of the event, where there is one.
pub open spec fn result_view(result: Result<TradeEvent, DecodeError>) -> Result<
    TradeEventView,
    DecodeError,
> {
    match result {
        Ok(event) => Ok(event@),
        Err(e) => Err(e),
    }
}

/// Looks up the mint and the trader of an instruction in the key table.
pub fn resolve_accounts(
    transaction: &VersionedTransaction,
    instruction: &CompiledInstruction,
    mint_slot: usize,
    trader_slot: usize,
) -> (accounts: Result<([u8; 32], [u8; 32]), DecodeError>)
    requires
        mint_slot < MIN_ACCOUNTS,
        trader_slot < MIN_ACCOUNTS,
    ensures
        match accounts {
            Ok((mint, trader)) => resolved_accounts(
                transaction@,
                instruction@,
                mint_slot as int,
                trader_slot as int,
            ) == Ok::<(Seq<u8>, Seq<u8>), DecodeError>((mint@, trader@)),
            Err(e) => resolved_accounts(
                transaction@,
                instruction@,
                mint_slot as int,
                trader_slot as int,
            ) == Err::<(Seq<u8>, Seq<u8>), DecodeError>(e),
        },
{
    if instruction.accounts.len() < MIN_ACCOUNTS {
        return Err(DecodeError::AccountsTooShort);
    }
    let static_keys = transaction.static_account_keys();
    assert(key_views(static_keys@).len() == static_keys@.len());

    let mint_index = instruction.accounts[mint_slot] as usize;
    if mint_index >= static_keys.len() {
        return Err(DecodeError::IndexOutOfBounds(AccountRole::Mint));
    }
    let mint = static_keys[mint_index];

    let trader_index = instruction.accounts[trader_slot] as usize;
    if trader_index >= static_keys.len() {
        return Err(DecodeError::IndexOutOfBounds(AccountRole::Trader));
    }
    let trader = static_keys[trader_index];
    assert(key_views(static_keys@)[mint_index as int] == mint@);
    assert(key_views(static_keys@)[trader_index as int] == trader@);
    Ok((mint, trader))
}

/// The identifier of a transaction: its first signature, in base58.
pub fn transaction_hash(transaction: &VersionedTransaction) -> (hash: String)
    ensures
        hash@ == tx_hash(transaction@),
{
    let signatures = transaction.signatures();
    assert(signature_views(signatures@)[0] == signatures@[0]@);
    signature_to_string(&signatures[0])
}

/// Puts an event together from its parts: the identifier, the trader and
/// the mint already as text, the amounts already rendered.
pub fn assemble_event(
    tx_hash: String,
    maker: String,
    token0_address: String,
    token0_amount: String,
    token1_amount: String,
    program: &str,
    kind: TradeKind,
) -> (event: TradeEvent)
    ensures
        event@ == (TradeEventView {
            tx_hash: tx_hash@,
            maker: maker@,
            token0_address: token0_address@,
            token1_address: WSOL_MINT@,
            token0_amount: token0_amount@,
            token1_amount: token1_amount@,
            program: program@,
            event: kind.tag(),
        }),
{
    TradeEvent {
        tx_hash,
        maker,
        token0_address,
        token1_address: WSOL_MINT.to_owned(),
        token0_amount,
        token1_amount,
        program: program.to_owned(),
        event: kind.as_str().to_owned(),
    }
}

/// Assembles the event for a trade of `mint` by `trader`.
pub fn build_event(
    transaction: &VersionedTransaction,
    mint: &[u8; 32],
    trader: &[u8; 32],
    token_amount: String,
    sol_amount: String,
    program: &str,
    kind: TradeKind,
) -> (event: TradeEvent)
    ensures
        event@ == trade_event(
            transaction@,
            mint@,
            trader@,
            token_amount@,
            sol_amount@,
            program@,
            kind,
        ),
{
    assemble_event(
        transaction_hash(transaction),
        pubkey_to_string(trader),
        pubkey_to_string(mint),
        token_amount,
        sol_amount,
        program,
        kind,
    )
}

} // verus!
