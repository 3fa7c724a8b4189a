use pool_sniper::address::{
    associated_token_program, bloxroute_tip, compute_budget_program, jito_tip, nextblock_tip,
    pools_program, system_program, token_program, vault_program, wrapped_native_mint, Address,
};
use pool_sniper::decoder::{create_ix_disc, decode_create, CreateIxData, DecodeError};
use pool_sniper::instruction::{AccountRef, Instruction};
use std::str::FromStr;

fn addr(n: u8) -> Address {
    Address::new([n; 32])
}

fn accounts(count: u8) -> Vec<AccountRef> {
    (0..count).map(|i| AccountRef::writable(addr(100 + i), false)).collect()
}

fn create_payload(token_a: u64, token_b: u64) -> Vec<u8> {
    let mut data = vec![0x30, 0x95, 0xdc, 0x82, 0x3d, 0x0b, 0x09, 0xb2];
    data.extend_from_slice(&token_a.to_le_bytes());
    data.extend_from_slice(&token_b.to_le_bytes());
    data
}

fn create_ix(count: u8) -> Instruction {
    Instruction { program_id: pools_program(), accounts: accounts(count), data: create_payload(1_000, 2_000) }
}

#[test]
fn fixed_addresses_match_their_base58_names() {
    let pairs = [
        (pools_program(), "Eo7WjKq67rjJQSZxS6z3YkapzY3eMj6Xy8X5EQVn5UaB"),
        (vault_program(), "24Uqj9JCLxUeoC3hGfh5W3s9FM9uCHDS2SG3LYwBpyTi"),
        (wrapped_native_mint(), "So11111111111111111111111111111111111111112"),
        (system_program(), "11111111111111111111111111111111"),
        (token_program(), "TokenkegQfeZyiNwAJbNbGKPFXCWuBvf9Ss623VQ5DA"),
        (compute_budget_program(), "ComputeBudget111111111111111111111111111111"),
        (associated_token_program(), "ATokenGPvbdGVxr1b2hvZbsiqW5xWH25efTNsLJA8knL"),
        (jito_tip(), "Cw8CFyM9FkoMi7K7Crf6HNQqf4uEMzpKw6QNghXLvLkY"),
        (bloxroute_tip(), "HWEoBxYs7ssKuudEjzjmpfJVX7Dvi7wescFsVx2L5yoY"),
        (nextblock_tip(), "NextbLoCkVtMGcV47JzewQdvBpLqT9TxQFozQkN98pE"),
    ];
    for (a, text) in pairs {
        assert_eq!(a.to_bytes(), solana_sdk::pubkey::Pubkey::from_str(text).unwrap().to_bytes(), "{}", text);
    }
}

#[test]
fn address_comparison() {
    assert!(addr(3).same_as(&addr(3)));
    let mut b = [3u8; 32];
    b[31] = 4;
    assert!(!addr(3).same_as(&Address::new(b)));
}

#[test]
fn foreign_program_is_no_match() {
    let mut ix = create_ix(18);
    ix.program_id = token_program();
    assert!(matches!(decode_create(&ix), Ok(None)));
    // even a short payload of another program is just no match
    ix.data = vec![1];
    assert!(matches!(decode_create(&ix), Ok(None)));
}

#[test]
fn other_discriminator_is_no_match() {
    let mut ix = create_ix(18);
    ix.data[0] = 0x31;
    assert!(matches!(decode_create(&ix), Ok(None)));
    ix.data[0] = 0x30;
    ix.data[7] = 0;
    assert!(matches!(decode_create(&ix), Ok(None)));
}

#[test]
fn fixture_create_instruction_yields_bundle() {
    let ix = Instruction {
        program_id: Address::new([
            204, 248, 2, 212, 204, 204, 132, 215, 251, 33, 181, 247, 59, 73, 216, 26, 22, 197, 180, 200, 142, 227, 35,
            148, 225, 201, 29, 53, 136, 204, 64, 128,
        ]),
        accounts: (0u8..18).map(|i| AccountRef { address: Address::new([i; 32]), is_signer: false, is_writable: true }).collect(),
        data: vec![
            0x30, 0x95, 0xdc, 0x82, 0x3d, 0x0b, 0x09, 0xb2, 0x40, 0x42, 0x0f, 0x00, 0x00, 0x00, 0x00, 0x00, 0x00, 0xe1,
            0xf5, 0x05, 0x00, 0x00, 0x00, 0x00,
        ],
    };
    let b = decode_create(&ix).unwrap().unwrap();
    assert_eq!(b.pool.to_bytes(), [0u8; 32]);
    assert_eq!(b.a_token_mint.to_bytes(), [3u8; 32]);
    assert_eq!(b.a_vault.to_bytes(), [5u8; 32]);
    assert_eq!(b.b_vault.to_bytes(), [6u8; 32]);
    assert_eq!(b.a_token_vault.to_bytes(), [7u8; 32]);
    assert_eq!(b.b_token_vault.to_bytes(), [8u8; 32]);
    assert_eq!(b.a_vault_lp_mint.to_bytes(), [9u8; 32]);
    assert_eq!(b.b_vault_lp_mint.to_bytes(), [10u8; 32]);
    assert_eq!(b.a_vault_lp.to_bytes(), [11u8; 32]);
    assert_eq!(b.b_vault_lp.to_bytes(), [12u8; 32]);
    assert_eq!(b.protocol_token_fee.to_bytes(), [17u8; 32]);
}

#[test]
fn short_payload_is_an_error() {
    let mut ix = create_ix(18);
    ix.data.truncate(7);
    assert!(matches!(decode_create(&ix), Err(DecodeError::ShortPayload)));
}

#[test]
fn truncated_arguments_are_an_error() {
    let mut ix = create_ix(18);
    ix.data.truncate(23);
    assert!(matches!(decode_create(&ix), Err(DecodeError::MalformedArguments)));
    ix.data.truncate(8);
    assert!(matches!(decode_create(&ix), Err(DecodeError::MalformedArguments)));
}

#[test]
fn too_few_accounts_is_an_error() {
    assert!(matches!(decode_create(&create_ix(17)), Err(DecodeError::MissingAccounts)));
    assert!(matches!(decode_create(&create_ix(12)), Err(DecodeError::MissingAccounts)));
    assert!(matches!(decode_create(&create_ix(18)), Ok(Some(_))));
}

#[test]
fn create_arguments_read_little_endian() {
    let d = CreateIxData::decode(&create_payload(1_000_000, 100_000_000)[8..]).unwrap();
    assert_eq!(d.token_a, 1_000_000);
    assert_eq!(d.token_b, 100_000_000);
    assert!(CreateIxData::decode(&[1u8; 15]).is_none());
    let d = CreateIxData::decode(&[0xff; 17]).unwrap();
    assert_eq!(d.token_a, u64::MAX);
    assert_eq!(d.token_b, u64::MAX);
}

#[test]
fn create_discriminator_value() {
    assert_eq!(create_ix_disc(), [0x30, 0x95, 0xdc, 0x82, 0x3d, 0x0b, 0x09, 0xb2]);
}
