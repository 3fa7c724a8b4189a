use pool_sniper::address::{
    associated_token_program, bloxroute_tip, compute_budget_program, jito_tip, nextblock_tip,
    pools_program, system_program, token_program, vault_program, wrapped_native_mint, Address,
};
use pool_sniper::decoder::AccountsForBuy;
use pool_sniper::instruction::Instruction;
use pool_sniper::transaction::{
    build_transaction_with_config, buy_instruction_list, tip_recipient, RpcType, TransactionConfig,
};
use solana_sdk::signature::Keypair;
use solana_sdk::signer::Signer;

fn addr(n: u8) -> Address {
    Address::new([n; 32])
}

fn bundle() -> AccountsForBuy {
    AccountsForBuy {
        pool: addr(1),
        a_token_mint: addr(2),
        a_vault: addr(3),
        b_vault: addr(4),
        a_token_vault: addr(5),
        b_token_vault: addr(6),
        a_vault_lp_mint: addr(7),
        b_vault_lp_mint: addr(8),
        a_vault_lp: addr(9),
        b_vault_lp: addr(10),
        protocol_token_fee: addr(11),
    }
}

fn config(limit: u32, price: u64, tip: u64) -> TransactionConfig {
    TransactionConfig::new([7u8; 32], limit, price, tip, 50_000_000, 1_234_567)
}

fn ata(owner: &Address, mint: &Address) -> [u8; 32] {
    spl_associated_token_account_client::address::get_associated_token_address(
        &solana_sdk::pubkey::Pubkey::new_from_array(owner.to_bytes()),
        &solana_sdk::pubkey::Pubkey::new_from_array(mint.to_bytes()),
    )
    .to_bytes()
}

fn program(ix: &Instruction) -> [u8; 32] {
    ix.program_id.to_bytes()
}

#[test]
fn signer_is_the_keypair_address() {
    let kp = Keypair::new_from_array([7u8; 32]);
    let expected = kp.pubkey().to_bytes();
    assert_eq!(config(0, 0, 0).signer().to_bytes(), expected);
}

#[test]
fn full_list_in_order() {
    let cfg = config(200_000, 1_000, 10_000);
    let ixs = buy_instruction_list(&cfg, RpcType::Jito, &bundle());
    assert_eq!(ixs.len(), 8);
    assert_eq!(program(&ixs[0]), compute_budget_program().to_bytes());
    let mut limit = vec![2u8];
    limit.extend_from_slice(&200_000u32.to_le_bytes());
    assert_eq!(ixs[0].data, limit);
    assert!(ixs[0].accounts.is_empty());
    assert_eq!(program(&ixs[1]), compute_budget_program().to_bytes());
    let mut price = vec![3u8];
    price.extend_from_slice(&1_000u64.to_le_bytes());
    assert_eq!(ixs[1].data, price);
    // tip
    assert_eq!(program(&ixs[2]), system_program().to_bytes());
    assert_eq!(ixs[2].accounts[1].address.to_bytes(), jito_tip().to_bytes());
    let mut tip = vec![2u8, 0, 0, 0];
    tip.extend_from_slice(&10_000u64.to_le_bytes());
    assert_eq!(ixs[2].data, tip);
    // account setup
    let owner = cfg.signer();
    let wsol_ata = ata(&owner, &wrapped_native_mint());
    assert_eq!(program(&ixs[3]), associated_token_program().to_bytes());
    assert_eq!(ixs[3].accounts[1].address.to_bytes(), wsol_ata);
    assert_eq!(ixs[3].data, vec![0u8]);
    assert_eq!(program(&ixs[4]), system_program().to_bytes());
    assert_eq!(ixs[4].accounts[1].address.to_bytes(), wsol_ata);
    let mut wrap = vec![2u8, 0, 0, 0];
    wrap.extend_from_slice(&50_000_000u64.to_le_bytes());
    assert_eq!(ixs[4].data, wrap);
    assert_eq!(program(&ixs[5]), token_program().to_bytes());
    assert_eq!(ixs[5].data, vec![17u8]);
    assert_eq!(ixs[5].accounts[0].address.to_bytes(), wsol_ata);
    assert_eq!(program(&ixs[6]), associated_token_program().to_bytes());
    assert_eq!(ixs[6].accounts[1].address.to_bytes(), ata(&owner, &addr(2)));
    // swap
    let swap = &ixs[7];
    assert_eq!(program(swap), pools_program().to_bytes());
    let mut data = 0xf8c69e91e17587c8u64.to_le_bytes().to_vec();
    data.extend_from_slice(&1_234_567u64.to_le_bytes());
    data.extend_from_slice(&50_000_000u64.to_le_bytes());
    assert_eq!(swap.data, data);
    assert_eq!(swap.accounts.len(), 15);
    assert_eq!(swap.accounts[0].address.to_bytes(), [1u8; 32]);
    assert_eq!(swap.accounts[1].address.to_bytes(), wsol_ata);
    assert_eq!(swap.accounts[2].address.to_bytes(), ata(&owner, &addr(2)));
    for i in 3..12 {
        assert_eq!(swap.accounts[i].address.to_bytes(), [i as u8; 32]);
        assert!(swap.accounts[i].is_writable && !swap.accounts[i].is_signer);
    }
    assert_eq!(swap.accounts[12].address.to_bytes(), owner.to_bytes());
    assert!(swap.accounts[12].is_signer && !swap.accounts[12].is_writable);
    assert_eq!(swap.accounts[13].address.to_bytes(), vault_program().to_bytes());
    assert_eq!(swap.accounts[14].address.to_bytes(), token_program().to_bytes());
}

#[test]
fn ordering_without_budget_or_tip() {
    for (limit, price, tip, kind, len) in [
        (0, 0, 0, RpcType::Jito, 5),
        (1, 0, 0, RpcType::Jito, 6),
        (0, 1, 0, RpcType::Jito, 6),
        (0, 0, 1, RpcType::Jito, 6),
        (0, 0, 1, RpcType::SolanaRpc, 5),
        (5, 5, 5, RpcType::SolanaRpc, 7),
        (5, 5, 5, RpcType::Bloxroute, 8),
    ] {
        let ixs = buy_instruction_list(&config(limit, price, tip), kind, &bundle());
        assert_eq!(ixs.len(), len);
        let budget = (limit > 0) as usize + (price > 0) as usize;
        for (i, ix) in ixs.iter().enumerate() {
            assert_eq!(program(ix) == compute_budget_program().to_bytes(), i < budget);
            assert_eq!(program(ix) == pools_program().to_bytes(), i == len - 1);
        }
        assert_eq!(program(&ixs[len - 5]), associated_token_program().to_bytes());
    }
}

#[test]
fn each_relay_tips_its_own_recipient() {
    let cfg = config(0, 0, 777);
    for (kind, recipient) in
        [(RpcType::Jito, jito_tip()), (RpcType::Bloxroute, bloxroute_tip()), (RpcType::Nextblock, nextblock_tip())]
    {
        let ixs = buy_instruction_list(&cfg, kind, &bundle());
        assert_eq!(ixs.len(), 6);
        assert_eq!(program(&ixs[0]), system_program().to_bytes());
        assert_eq!(ixs[0].accounts[0].address.to_bytes(), cfg.signer().to_bytes());
        assert_eq!(ixs[0].accounts[1].address.to_bytes(), recipient.to_bytes());
    }
    assert!(tip_recipient(RpcType::SolanaRpc).is_none());
    let plain = buy_instruction_list(&cfg, RpcType::SolanaRpc, &bundle());
    assert_eq!(plain.len(), 5);
    assert_eq!(program(&plain[0]), associated_token_program().to_bytes());
}

#[test]
fn building_twice_gives_the_same_message() {
    let cfg = config(200_000, 1_000, 10_000);
    let hash = [9u8; 32];
    let a = build_transaction_with_config(&cfg, RpcType::Bloxroute, hash, bundle()).unwrap();
    let b = build_transaction_with_config(&cfg, RpcType::Bloxroute, hash, bundle()).unwrap();
    assert_eq!(a.message, b.message);
    assert_eq!(a.instructions.len(), b.instructions.len());
    for (x, y) in a.instructions.iter().zip(b.instructions.iter()) {
        assert_eq!(x.program_id.to_bytes(), y.program_id.to_bytes());
        assert_eq!(x.data, y.data);
    }
    assert_eq!(a.signature, b.signature);
    let other = build_transaction_with_config(&cfg, RpcType::Jito, hash, bundle()).unwrap();
    assert_ne!(a.message, other.message);
}

#[test]
fn without_tip_the_channel_does_not_change_the_message() {
    let cfg = config(1, 2, 0);
    let kinds = [RpcType::SolanaRpc, RpcType::Jito, RpcType::Bloxroute, RpcType::Nextblock];
    let first = build_transaction_with_config(&cfg, kinds[0], [6u8; 32], bundle()).unwrap().message;
    for k in kinds {
        assert_eq!(build_transaction_with_config(&cfg, k, [6u8; 32], bundle()).unwrap().message, first);
    }
}

#[test]
fn message_payer_is_the_signer() {
    let cfg = config(0, 0, 0);
    let t = build_transaction_with_config(&cfg, RpcType::SolanaRpc, [8u8; 32], bundle()).unwrap();
    let decoded: solana_sdk::transaction::VersionedTransaction = bincode::deserialize(&t.wire).unwrap();
    let kp = Keypair::new_from_array([7u8; 32]);
    assert_eq!(decoded.message.static_account_keys()[0], kp.pubkey());
    assert_eq!(decoded.signatures[0], kp.sign_message(&t.message));
}

#[test]
fn wire_form_is_the_signed_versioned_transaction() {
    let cfg = config(200_000, 1_000, 10_000);
    let t = build_transaction_with_config(&cfg, RpcType::Nextblock, [3u8; 32], bundle()).unwrap();
    let decoded: solana_sdk::transaction::VersionedTransaction = bincode::deserialize(&t.wire).unwrap();
    assert_eq!(decoded.signatures.len(), 1);
    assert_eq!(<[u8; 64]>::from(decoded.signatures[0]), t.signature);
    assert_eq!(decoded.message.serialize(), t.message);
    assert_eq!(decoded.message.recent_blockhash().to_bytes(), [3u8; 32]);
    assert_eq!(bincode::serialize(&decoded).unwrap(), t.wire);
    assert!(decoded.verify_with_results().iter().all(|ok| *ok));
    assert_eq!(decoded.message.instructions().len(), 8);
}
