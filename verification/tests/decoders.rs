use shredstream_proxy::transaction::azcz_parser::{self, parse_azcz_instruction, AZCZ_PROGRAM_ID};
use shredstream_proxy::transaction::common::WSOL_MINT;
use shredstream_proxy::transaction::pump_parser::{
    self, parse_create_coin_args, parse_pump_instruction, parse_sell_tokens_args, PUMP_PROGRAM_ID,
};
use shredstream_proxy::transaction::types::{
    AccountRole, CompiledInstruction, DecodeError, TradeEvent, VersionedTransaction,
};
use shredstream_proxy::transaction::{
    decode_transaction, find_decoder, parse_transaction, route_instruction, DecodeFailure,
    ProgramDecoder,
};
use solana_sdk::pubkey::Pubkey;
use solana_sdk::signature::Signature;
use std::str::FromStr;

fn key_of(address: &str) -> [u8; 32] {
    Pubkey::from_str(address).unwrap().to_bytes()
}

fn plain_key(fill: u8) -> [u8; 32] {
    [fill; 32]
}

fn signature(fill: u8) -> [u8; 64] {
    [fill; 64]
}

/// Keys 0..=9 are plain accounts, key 10 the pump program, key 11 the AzcZ
/// program, key 12 a program without a decoder.
fn key_table() -> Vec<[u8; 32]> {
    let mut keys: Vec<[u8; 32]> = (0u8..10).map(|i| plain_key(i + 1)).collect();
    keys.push(key_of(PUMP_PROGRAM_ID));
    keys.push(key_of(AZCZ_PROGRAM_ID));
    keys.push(key_of(WSOL_MINT));
    keys
}

const PUMP: u8 = 10;
const AZCZ: u8 = 11;
const OTHER: u8 = 12;

fn transaction(instructions: Vec<CompiledInstruction>) -> VersionedTransaction {
    VersionedTransaction::new(vec![signature(7), signature(8)], key_table(), instructions).unwrap()
}

fn instruction(program: u8, accounts: Vec<u8>, data: Vec<u8>) -> CompiledInstruction {
    CompiledInstruction { program_id_index: program, accounts, data }
}

fn pump_data(discriminator: u8, amount: u64, sol: u64) -> Vec<u8> {
    let mut data = vec![discriminator, 0xaa, 0xbb, 0xcc, 0xdd, 0xee, 0xff, 0x11];
    data.extend_from_slice(&amount.to_le_bytes());
    data.extend_from_slice(&sol.to_le_bytes());
    data
}

fn azcz_data(sol: u64, amount: u64) -> Vec<u8> {
    let mut data = vec![azcz_parser::BUY_TOKENS_IX];
    data.extend_from_slice(&sol.to_le_bytes());
    data.extend_from_slice(&amount.to_le_bytes());
    data
}

fn accounts() -> Vec<u8> {
    vec![0, 1, 2, 3, 4, 5, 6, 7]
}

fn text_of(key: [u8; 32]) -> String {
    Pubkey::new_from_array(key).to_string()
}

fn only_event(outcome: Option<Result<TradeEvent, DecodeError>>) -> TradeEvent {
    outcome.unwrap().unwrap()
}

#[test]
fn buy_yields_one_event_with_formatted_amounts() {
    let tx = transaction(vec![instruction(
        PUMP,
        accounts(),
        pump_data(pump_parser::BUY_TOKENS_IX, 2_000_000, 500_000_000),
    )]);
    let events = parse_transaction(&tx);
    assert_eq!(events.len(), 1);
    let event = &events[0];
    assert_eq!(event.token0_amount, "2.000000");
    assert_eq!(event.token1_amount, "0.500000000");
    assert_eq!(event.event, "buy");
    assert_eq!(event.program, "pump");
    assert_eq!(event.token1_address, "So11111111111111111111111111111111111111112");
    assert_eq!(event.token0_address, text_of(plain_key(3)));
    assert_eq!(event.maker, text_of(plain_key(8)));
    assert_eq!(event.tx_hash, Signature::from(signature(7)).to_string());
}

#[test]
fn sell_yields_a_sell_event() {
    let tx = transaction(vec![instruction(
        PUMP,
        accounts(),
        pump_data(pump_parser::EXTENDED_SELL_IX, 123_456_789, 1),
    )]);
    let event = only_event(parse_pump_instruction(&tx, 0));
    assert_eq!(event.event, "sell");
    assert_eq!(event.program, "pump");
    assert_eq!(event.token0_amount, "123.456789");
    assert_eq!(event.token1_amount, "0.000000001");
    assert_eq!(event.token0_address, text_of(plain_key(3)));
    assert_eq!(event.maker, text_of(plain_key(8)));
}

#[test]
fn create_yields_a_create_event_with_zero_amounts() {
    let tx = transaction(vec![instruction(
        PUMP,
        vec![9, 1, 2, 3, 4, 5, 6, 0],
        vec![pump_parser::CREATE_COIN_IX],
    )]);
    let event = only_event(parse_pump_instruction(&tx, 0));
    assert_eq!(event.event, "create");
    assert_eq!(event.program, "pump");
    assert_eq!(event.token0_amount, "0.000000");
    assert_eq!(event.token1_amount, "0.000000000");
    assert_eq!(event.token0_address, text_of(plain_key(10)));
    assert_eq!(event.maker, text_of(plain_key(1)));
    assert_eq!(event.token1_address, WSOL_MINT);
}

#[test]
fn tx_hash_is_the_first_signature_in_base58() {
    let zero = VersionedTransaction::new(
        vec![[0u8; 64], signature(9)],
        key_table(),
        vec![instruction(PUMP, accounts(), pump_data(pump_parser::BUY_TOKENS_IX, 1, 1))],
    )
    .unwrap();
    let events = parse_transaction(&zero);
    assert_eq!(events[0].tx_hash, "1".repeat(64));
    assert_eq!(decode_transaction(&zero).tx_hash, "1".repeat(64));
}

#[test]
fn addresses_are_written_in_base58() {
    // The trader is the pump program itself, the mint the all-zero key.
    let mut keys = key_table();
    keys[2] = [0u8; 32];
    let tx = VersionedTransaction::new(
        vec![signature(1)],
        keys,
        vec![instruction(
            PUMP,
            vec![0, 1, 2, 3, 4, 5, 6, PUMP],
            pump_data(pump_parser::BUY_TOKENS_IX, 1, 1),
        )],
    )
    .unwrap();
    let event = only_event(parse_pump_instruction(&tx, 0));
    assert_eq!(event.maker, "6EF8rrecthR5Dkzon8Nwu78hRvfCKubJ14M5uBEwF6P");
    assert_eq!(event.token0_address, "11111111111111111111111111111111");
}

#[test]
fn empty_data_is_an_error_and_the_other_instructions_still_decode() {
    let tx = transaction(vec![
        instruction(PUMP, accounts(), pump_data(pump_parser::BUY_TOKENS_IX, 1_000_000, 2)),
        instruction(PUMP, accounts(), vec![]),
        instruction(AZCZ, accounts(), vec![]),
        instruction(PUMP, accounts(), pump_data(pump_parser::EXTENDED_SELL_IX, 3_000_000, 4)),
    ]);
    assert_eq!(parse_pump_instruction(&tx, 1).unwrap().unwrap_err(), DecodeError::DataEmpty);
    assert_eq!(parse_azcz_instruction(&tx, 2).unwrap().unwrap_err(), DecodeError::DataEmpty);

    let report = decode_transaction(&tx);
    assert_eq!(report.events.len(), 2);
    assert_eq!(report.events[0].event, "buy");
    assert_eq!(report.events[0].token0_amount, "1.000000");
    assert_eq!(report.events[1].event, "sell");
    assert_eq!(report.events[1].token0_amount, "3.000000");
    assert_eq!(
        report.failures,
        vec![
            DecodeFailure {
                instruction_index: 1,
                decoder: ProgramDecoder::Pump,
                error: DecodeError::DataEmpty
            },
            DecodeFailure {
                instruction_index: 2,
                decoder: ProgramDecoder::Azcz,
                error: DecodeError::DataEmpty
            },
        ]
    );
}

#[test]
fn fewer_than_eight_accounts_is_accounts_too_short() {
    let short = vec![0, 1, 2, 3, 4, 5, 6];
    let tx = transaction(vec![
        instruction(PUMP, short.clone(), pump_data(pump_parser::BUY_TOKENS_IX, 1, 1)),
        instruction(PUMP, short.clone(), pump_data(pump_parser::EXTENDED_SELL_IX, 1, 1)),
        instruction(PUMP, short.clone(), vec![pump_parser::CREATE_COIN_IX]),
        instruction(AZCZ, short.clone(), azcz_data(1, 1)),
        instruction(PUMP, vec![], pump_data(pump_parser::BUY_TOKENS_IX, 1, 1)),
    ]);
    for index in 0..3 {
        assert_eq!(
            parse_pump_instruction(&tx, index).unwrap().unwrap_err(),
            DecodeError::AccountsTooShort
        );
    }
    assert_eq!(
        parse_azcz_instruction(&tx, 3).unwrap().unwrap_err(),
        DecodeError::AccountsTooShort
    );
    assert_eq!(
        parse_pump_instruction(&tx, 4).unwrap().unwrap_err(),
        DecodeError::AccountsTooShort
    );
    assert!(parse_transaction(&tx).is_empty());
    assert_eq!(decode_transaction(&tx).failures.len(), 5);
}

#[test]
fn more_than_eight_accounts_are_accepted() {
    let tx = transaction(vec![instruction(
        PUMP,
        vec![0, 1, 2, 3, 4, 5, 6, 7, 8, 200],
        pump_data(pump_parser::BUY_TOKENS_IX, 1, 1),
    )]);
    assert_eq!(parse_transaction(&tx).len(), 1);
}

#[test]
fn unknown_program_contributes_nothing() {
    let tx = transaction(vec![
        instruction(OTHER, accounts(), pump_data(pump_parser::BUY_TOKENS_IX, 1, 1)),
        instruction(OTHER, vec![], vec![]),
        instruction(0, accounts(), pump_data(pump_parser::BUY_TOKENS_IX, 1, 1)),
    ]);
    let report = decode_transaction(&tx);
    assert!(report.events.is_empty());
    assert!(report.failures.is_empty());
    assert_eq!(route_instruction(&tx, 0), None);
    assert_eq!(route_instruction(&tx, 1), None);
}

#[test]
fn program_index_past_the_key_table_is_skipped() {
    let tx = transaction(vec![
        instruction(13, accounts(), pump_data(pump_parser::BUY_TOKENS_IX, 1, 1)),
        instruction(255, accounts(), vec![]),
        instruction(PUMP, accounts(), pump_data(pump_parser::BUY_TOKENS_IX, 5_000_000, 1)),
    ]);
    let report = decode_transaction(&tx);
    assert_eq!(report.events.len(), 1);
    assert_eq!(report.events[0].token0_amount, "5.000000");
    assert!(report.failures.is_empty());
    assert_eq!(route_instruction(&tx, 0), None);
    assert_eq!(route_instruction(&tx, 2), Some(ProgramDecoder::Pump));
    assert_eq!(route_instruction(&tx, 3), None);
}

#[test]
fn unmatched_discriminator_contributes_nothing() {
    let tx = transaction(vec![
        instruction(PUMP, accounts(), pump_data(1, 1, 1)),
        instruction(PUMP, vec![], vec![0]),
        instruction(PUMP, accounts(), pump_data(azcz_parser::BUY_TOKENS_IX, 1, 1)),
        instruction(AZCZ, accounts(), pump_data(pump_parser::BUY_TOKENS_IX, 1, 1)),
        instruction(AZCZ, vec![], vec![12]),
    ]);
    assert!(parse_pump_instruction(&tx, 0).is_none());
    assert!(parse_pump_instruction(&tx, 1).is_none());
    assert!(parse_pump_instruction(&tx, 2).is_none());
    assert!(parse_azcz_instruction(&tx, 3).is_none());
    assert!(parse_azcz_instruction(&tx, 4).is_none());
    assert_eq!(route_instruction(&tx, 0), Some(ProgramDecoder::Pump));
    assert_eq!(route_instruction(&tx, 3), Some(ProgramDecoder::Azcz));
    let report = decode_transaction(&tx);
    assert!(report.events.is_empty());
    assert!(report.failures.is_empty());
}

#[test]
fn instruction_index_past_the_end_is_an_error() {
    let tx = transaction(vec![instruction(PUMP, accounts(), vec![])]);
    assert_eq!(
        parse_pump_instruction(&tx, 1).unwrap().unwrap_err(),
        DecodeError::InstructionOutOfBounds
    );
    assert_eq!(
        parse_azcz_instruction(&tx, usize::MAX).unwrap().unwrap_err(),
        DecodeError::InstructionOutOfBounds
    );
    assert_eq!(
        ProgramDecoder::Pump.decode(&tx, 7).unwrap().unwrap_err(),
        DecodeError::InstructionOutOfBounds
    );
}

#[test]
fn mint_past_the_key_table_is_index_out_of_bounds() {
    let tx = transaction(vec![
        instruction(
            PUMP,
            vec![0, 1, 13, 3, 4, 5, 6, 7],
            pump_data(pump_parser::BUY_TOKENS_IX, 1, 1),
        ),
        instruction(PUMP, vec![200, 1, 2, 3, 4, 5, 6, 7], vec![pump_parser::CREATE_COIN_IX]),
        instruction(AZCZ, vec![0, 1, 2, 13, 4, 5, 6, 7], azcz_data(1, 1)),
        // Both the mint and the trader are out of range: the mint is reported.
        instruction(
            PUMP,
            vec![0, 1, 99, 3, 4, 5, 6, 99],
            pump_data(pump_parser::EXTENDED_SELL_IX, 1, 1),
        ),
    ]);
    let mint = DecodeError::IndexOutOfBounds(AccountRole::Mint);
    assert_eq!(parse_pump_instruction(&tx, 0).unwrap().unwrap_err(), mint);
    assert_eq!(parse_pump_instruction(&tx, 1).unwrap().unwrap_err(), mint);
    assert_eq!(parse_azcz_instruction(&tx, 2).unwrap().unwrap_err(), mint);
    assert_eq!(parse_pump_instruction(&tx, 3).unwrap().unwrap_err(), mint);
}

#[test]
fn trader_past_the_key_table_is_index_out_of_bounds() {
    let tx = transaction(vec![
        instruction(
            PUMP,
            vec![0, 1, 2, 3, 4, 5, 6, 13],
            pump_data(pump_parser::BUY_TOKENS_IX, 1, 1),
        ),
        instruction(PUMP, vec![0, 1, 2, 3, 4, 5, 6, 255], vec![pump_parser::CREATE_COIN_IX]),
        instruction(AZCZ, vec![0, 1, 2, 3, 4, 5, 6, 13], azcz_data(1, 1)),
    ]);
    let trader = DecodeError::IndexOutOfBounds(AccountRole::Trader);
    assert_eq!(parse_pump_instruction(&tx, 0).unwrap().unwrap_err(), trader);
    assert_eq!(parse_pump_instruction(&tx, 1).unwrap().unwrap_err(), trader);
    assert_eq!(parse_azcz_instruction(&tx, 2).unwrap().unwrap_err(), trader);
}

#[test]
fn last_key_of_the_table_is_in_range() {
    let tx = transaction(vec![instruction(
        PUMP,
        vec![0, 1, 12, 3, 4, 5, 6, 12],
        pump_data(pump_parser::BUY_TOKENS_IX, 1, 1),
    )]);
    let event = only_event(parse_pump_instruction(&tx, 0));
    assert_eq!(event.maker, WSOL_MINT);
    assert_eq!(event.token0_address, WSOL_MINT);
}

#[test]
fn short_payload_is_a_deserialize_failure() {
    let mut short = pump_data(pump_parser::BUY_TOKENS_IX, 1, 1);
    short.truncate(23);
    let tx = transaction(vec![
        instruction(PUMP, accounts(), short),
        instruction(PUMP, accounts(), vec![pump_parser::BUY_TOKENS_IX]),
        instruction(PUMP, accounts(), vec![pump_parser::EXTENDED_SELL_IX, 1, 2, 3, 4]),
        instruction(PUMP, accounts(), vec![pump_parser::EXTENDED_SELL_IX, 1, 2, 3, 4, 5, 6, 7]),
    ]);
    for index in 0..4 {
        assert_eq!(
            parse_pump_instruction(&tx, index).unwrap().unwrap_err(),
            DecodeError::DeserializeFailure
        );
    }
}

#[test]
fn accounts_are_looked_at_before_the_payload() {
    let tx = transaction(vec![
        instruction(PUMP, vec![], vec![pump_parser::BUY_TOKENS_IX, 0, 0]),
        instruction(PUMP, vec![0, 1, 99, 3, 4, 5, 6, 7], vec![pump_parser::EXTENDED_SELL_IX]),
        instruction(PUMP, vec![0, 1, 2, 3, 4, 5, 6, 99], vec![pump_parser::BUY_TOKENS_IX]),
    ]);
    assert_eq!(
        parse_pump_instruction(&tx, 0).unwrap().unwrap_err(),
        DecodeError::AccountsTooShort
    );
    assert_eq!(
        parse_pump_instruction(&tx, 1).unwrap().unwrap_err(),
        DecodeError::IndexOutOfBounds(AccountRole::Mint)
    );
    assert_eq!(
        parse_pump_instruction(&tx, 2).unwrap().unwrap_err(),
        DecodeError::IndexOutOfBounds(AccountRole::Trader)
    );
}

#[test]
fn longer_payload_is_read_at_the_fixed_offsets() {
    let mut data = pump_data(pump_parser::BUY_TOKENS_IX, 42_000_000, 9_000_000_000);
    data.extend_from_slice(&[1, 2, 3, 4, 5, 6, 7, 8, 9]);
    let tx = transaction(vec![instruction(PUMP, accounts(), data)]);
    let event = only_event(parse_pump_instruction(&tx, 0));
    assert_eq!(event.token0_amount, "42.000000");
    assert_eq!(event.token1_amount, "9.000000000");
}

#[test]
fn payload_fields_are_little_endian() {
    let mut data = vec![pump_parser::EXTENDED_SELL_IX, 0, 0, 0, 0, 0, 0, 0];
    data.extend_from_slice(&[0x01, 0x02, 0, 0, 0, 0, 0, 0]);
    data.extend_from_slice(&[0, 0, 0, 0, 0, 0, 0, 0x80]);
    let tx = transaction(vec![instruction(PUMP, accounts(), data)]);
    let event = only_event(parse_pump_instruction(&tx, 0));
    assert_eq!(event.token0_amount, "0.000513");
    assert_eq!(event.token1_amount, "9223372036.854775808");
}

#[test]
fn sell_and_create_decode_through_their_own_entry_points() {
    let tx = transaction(vec![
        instruction(PUMP, accounts(), pump_data(pump_parser::EXTENDED_SELL_IX, 7, 8)),
        instruction(PUMP, accounts(), vec![pump_parser::CREATE_COIN_IX, 1, 2]),
    ]);
    let sell = parse_sell_tokens_args(&tx, &tx.instructions()[0]).unwrap();
    assert_eq!(sell.event, "sell");
    assert_eq!(sell.token0_amount, "0.000007");
    assert_eq!(sell.token1_amount, "0.000000008");
    let create = parse_create_coin_args(&tx, &tx.instructions()[1]).unwrap();
    assert_eq!(create.event, "create");
    assert_eq!(create.token0_address, text_of(plain_key(1)));
    let buy = pump_parser::parse_buy_tokens_args(&tx, &tx.instructions()[0]).unwrap();
    assert_eq!(buy.event, "buy");
}

#[test]
fn azcz_buy_reads_the_native_amount_first() {
    let tx = transaction(vec![instruction(AZCZ, accounts(), azcz_data(500_000_000, 2_000_000))]);
    let event = only_event(parse_azcz_instruction(&tx, 0));
    assert_eq!(event.event, "buy");
    assert_eq!(event.program, "pump");
    assert_eq!(event.token0_amount, "2.000000");
    assert_eq!(event.token1_amount, "0.500000000");
    assert_eq!(event.token0_address, text_of(plain_key(4)));
    assert_eq!(event.maker, text_of(plain_key(8)));
    assert_eq!(event.token1_address, WSOL_MINT);
    assert_eq!(parse_transaction(&tx).len(), 1);
}

#[test]
fn azcz_buy_accepts_the_structured_layout_only() {
    let mut long = azcz_data(1, 1);
    long.push(0);
    let mut short = azcz_data(1, 1);
    short.pop();
    let tx = transaction(vec![
        instruction(AZCZ, accounts(), long),
        instruction(AZCZ, accounts(), short),
        instruction(AZCZ, accounts(), vec![azcz_parser::BUY_TOKENS_IX]),
        // The accounts are looked at first.
        instruction(AZCZ, vec![], vec![azcz_parser::BUY_TOKENS_IX]),
    ]);
    for index in 0..3 {
        assert_eq!(
            parse_azcz_instruction(&tx, index).unwrap().unwrap_err(),
            DecodeError::DeserializeFailure
        );
    }
    assert_eq!(
        parse_azcz_instruction(&tx, 3).unwrap().unwrap_err(),
        DecodeError::AccountsTooShort
    );
    let direct = azcz_parser::parse_buy_tokens_args(&tx, &tx.instructions()[0]);
    assert_eq!(direct.unwrap_err(), DecodeError::DeserializeFailure);
}

#[test]
fn one_transaction_may_yield_many_events() {
    let tx = transaction(vec![
        instruction(PUMP, accounts(), pump_data(pump_parser::BUY_TOKENS_IX, 1_000_000, 1)),
        instruction(OTHER, accounts(), vec![1, 2, 3]),
        instruction(AZCZ, accounts(), azcz_data(2, 2_000_000)),
        instruction(PUMP, accounts(), vec![pump_parser::CREATE_COIN_IX]),
        instruction(PUMP, accounts(), pump_data(pump_parser::EXTENDED_SELL_IX, 3_000_000, 3)),
    ]);
    let events = parse_transaction(&tx);
    let kinds: Vec<&str> = events.iter().map(|e| e.event.as_str()).collect();
    assert_eq!(kinds, vec!["buy", "buy", "create", "sell"]);
    let amounts: Vec<&str> = events.iter().map(|e| e.token0_amount.as_str()).collect();
    assert_eq!(amounts, vec!["1.000000", "2.000000", "0.000000", "3.000000"]);
    let hash = Signature::from(signature(7)).to_string();
    assert!(events.iter().all(|e| e.tx_hash == hash));
}

#[test]
fn transaction_without_instructions_yields_nothing() {
    let tx = transaction(vec![]);
    let report = decode_transaction(&tx);
    assert!(report.events.is_empty());
    assert!(report.failures.is_empty());
    assert_eq!(report.tx_hash, Signature::from(signature(7)).to_string());
}

#[test]
fn decoders_are_found_by_exact_key() {
    assert_eq!(find_decoder(&key_of(PUMP_PROGRAM_ID)), Some(ProgramDecoder::Pump));
    assert_eq!(find_decoder(&key_of(AZCZ_PROGRAM_ID)), Some(ProgramDecoder::Azcz));
    assert_eq!(find_decoder(&key_of(WSOL_MINT)), None);
    let mut near = key_of(PUMP_PROGRAM_ID);
    near[31] ^= 1;
    assert_eq!(find_decoder(&near), None);
    let mut near = key_of(AZCZ_PROGRAM_ID);
    near[0] ^= 0x80;
    assert_eq!(find_decoder(&near), None);
    assert_eq!(ProgramDecoder::Pump.name(), "pump");
    assert_eq!(ProgramDecoder::Azcz.name(), "azcz");
}

#[test]
fn transaction_needs_a_signature() {
    assert!(VersionedTransaction::new(vec![], key_table(), vec![]).is_none());
    let tx = VersionedTransaction::new(vec![signature(3)], vec![], vec![]).unwrap();
    assert_eq!(tx.signatures().len(), 1);
    assert!(tx.static_account_keys().is_empty());
    assert!(tx.instructions().is_empty());
}

#[test]
fn decoding_twice_gives_the_same_events() {
    let tx = transaction(vec![
        instruction(PUMP, accounts(), pump_data(pump_parser::BUY_TOKENS_IX, 1_000_000, 1)),
        instruction(PUMP, accounts(), vec![]),
    ]);
    let first = decode_transaction(&tx);
    let second = decode_transaction(&tx);
    assert_eq!(format!("{:?}", first.events), format!("{:?}", second.events));
    assert_eq!(first.failures, second.failures);
}
