use pool_sniper::address::{pools_program, token_program, Address};
use pool_sniper::bench::{Bench, RpcConfig};
use pool_sniper::controller::MeteoraController;
use pool_sniper::geyser::Error;
use pool_sniper::instruction::{AccountRef, Instruction};
use pool_sniper::transaction::{RpcType, TransactionConfig};

fn controller() -> MeteoraController {
    let cfg = TransactionConfig::new([1u8; 32], 0, 0, 0, 1, 1);
    let rpc = RpcConfig { rpc_type: RpcType::SolanaRpc, url: "http://node".to_string(), auth: None };
    MeteoraController::new(Bench::new(cfg, vec![("node".to_string(), rpc)]).unwrap())
}

fn create_ix(seed: u8) -> Instruction {
    let mut data = vec![0x30, 0x95, 0xdc, 0x82, 0x3d, 0x0b, 0x09, 0xb2];
    data.extend_from_slice(&5u64.to_le_bytes());
    data.extend_from_slice(&6u64.to_le_bytes());
    Instruction {
        program_id: pools_program(),
        accounts: (0u8..18)
            .map(|i| AccountRef { address: Address::new([seed.wrapping_add(i); 32]), is_signer: false, is_writable: true })
            .collect(),
        data,
    }
}

fn other_ix() -> Instruction {
    Instruction { program_id: token_program(), accounts: vec![], data: vec![17] }
}

#[test]
fn fires_once_over_two_matching_updates() {
    let mut c = controller();
    let mut fired = 0;
    let updates = vec![vec![other_ix()], vec![other_ix(), create_ix(10)], vec![create_ix(50)], vec![create_ix(90)]];
    for (n, u) in updates.iter().enumerate() {
        if let Some(t) = c.transaction_handler(u, [n as u8; 32]) {
            fired += 1;
            assert_eq!(t.recent_blockhash, [1u8; 32]);
            assert_eq!(t.accounts_for_buy.pool.to_bytes(), [10u8; 32]);
        }
    }
    assert_eq!(fired, 1);
    assert!(c.is_buy);
}

#[test]
fn first_match_within_an_update_wins() {
    let mut c = controller();
    let mut broken = create_ix(0);
    broken.accounts.truncate(5);
    let t = c.transaction_handler(&vec![broken, create_ix(20), create_ix(40)], [0u8; 32]).unwrap();
    assert_eq!(t.accounts_for_buy.pool.to_bytes(), [20u8; 32]);
}

#[test]
fn no_match_keeps_waiting() {
    let mut c = controller();
    assert!(c.transaction_handler(&vec![other_ix(), other_ix()], [0u8; 32]).is_none());
    assert!(c.transaction_handler(&vec![], [0u8; 32]).is_none());
    assert!(!c.is_buy);
}

#[test]
fn end_to_end_fixture_update() {
    let mut c = controller();
    let accounts: Vec<AccountRef> = (0u8..18)
        .map(|i| AccountRef { address: Address::new([200u8.wrapping_add(i); 32]), is_signer: i == 1, is_writable: true })
        .collect();
    let mut data = vec![0x30, 0x95, 0xdc, 0x82, 0x3d, 0x0b, 0x09, 0xb2];
    data.extend_from_slice(&[0u8; 16]);
    let update = vec![other_ix(), Instruction { program_id: pools_program(), accounts: accounts.clone(), data }];
    let t = c.transaction_handler(&update, [77u8; 32]).unwrap();
    assert_eq!(t.recent_blockhash, [77u8; 32]);
    let b = t.accounts_for_buy;
    assert_eq!(b.pool.to_bytes(), accounts[0].address.to_bytes());
    assert_eq!(b.a_token_mint.to_bytes(), accounts[3].address.to_bytes());
    assert_eq!(b.b_vault_lp.to_bytes(), accounts[12].address.to_bytes());
    assert_eq!(b.protocol_token_fee.to_bytes(), accounts[17].address.to_bytes());
    let report = c.bench.race_report(vec![(3, Err(pool_sniper::senders::SendError::Transport("down".to_string())))]);
    assert_eq!(report.len(), 1);
    assert_eq!(report[0].name, "node");
}

#[test]
fn stream_error_message() {
    assert_eq!(Error::Custom("lost".to_string()).message(), "lost");
}
