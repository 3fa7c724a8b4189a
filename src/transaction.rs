//! Builds the buy transaction: the ordered instruction list, its compiled
//! message and the signed wire form.
use vstd::prelude::*;
use solana_sdk::instruction::{AccountMeta, Instruction as SdkInstruction};
use solana_sdk::message::{v0, VersionedMessage};
use solana_sdk::pubkey::Pubkey;
use solana_sdk::signature::Keypair;
use solana_sdk::signer::Signer;
use crate::address::{
    bloxroute_tip, jito_tip, nextblock_tip,
    pools_program, spec_associated_token_program, spec_bloxroute_tip, spec_compute_budget_program,
    spec_jito_tip, spec_nextblock_tip, spec_pools_program, spec_system_program, spec_token_program,
    spec_vault_program, spec_wrapped_native_mint, token_program, vault_program,
    wrapped_native_mint, Address,
};
use crate::bytes::{extend, le_bytes, u64_le};
use crate::decoder::AccountsForBuy;
use crate::instruction::{models, readonly, writable, AccountModel, AccountRef, Instruction, InstructionModel};

verus! {

/// The kind of submission channel a transaction is built for.
#[derive(Clone, Copy, Debug, PartialEq, Eq, Structural)]
pub enum RpcType {
    /// A plain node, reached through its JSON-RPC interface.
    SolanaRpc,
    /// A bundle relay, reached through a JSON-RPC envelope in base-58.
    Jito,
    /// A relay with front-running protection, payload in base-64.
    Bloxroute,
    /// A relay with the same envelope as the former, payload in base-58, no
    /// explicit content type.
    Nextblock,
}

/// Why a transaction could not be built.
#[derive(Clone, Copy, Debug, PartialEq, Eq, Structural)]
pub enum BuildError {
    /// The token program refused to build the sync instruction.
    TokenProgram,
    /// The instruction list could not be compiled into a message.
    Compile,
}

/// The static trading configuration shared by every build.
#[derive(Clone, Copy)]
pub struct TransactionConfig {
    /// The signer's ed25519 secret key.
    pub secret_key: [u8; 32],
    pub compute_unit_limit: u32,
    pub compute_unit_price: u64,
    pub tip: u64,
    pub buy_amount: u64,
    pub min_amount_out: u64,
}

/// The ed25519 public key, that is the address, that belongs to a secret key.
pub uninterp spec fn ed25519_public_key_of(secret_key: Seq<u8>) -> Seq<u8>;

/// The ed25519 signature of a message under a secret key (the scheme is
/// deterministic).
pub uninterp spec fn ed25519_signature_of(secret_key: Seq<u8>, message: Seq<u8>) -> Seq<u8>;

/// The configured signer: fee payer and owner of the token accounts.
pub open spec fn signer_of(cfg: TransactionConfig) -> Seq<u8> {
    ed25519_public_key_of(cfg.secret_key@)
}

/// Relies on solana's `Keypair::new_from_array` and `Signer::pubkey`: the
/// public key that the secret key derives.
#[verifier::external_body]
fn keypair_address(secret_key: &[u8; 32]) -> (r: Address)
    ensures
        r@ == ed25519_public_key_of(secret_key@),
{
    Address { bytes: Keypair::new_from_array(*secret_key).pubkey().to_bytes() }
}

/// Relies on solana's `Keypair::new_from_array` and `Signer::sign_message`:
/// the ed25519 signature of the message bytes.
#[verifier::external_body]
fn sign_message(secret_key: &[u8; 32], message: &Vec<u8>) -> (r: [u8; 64])
    ensures
        r@ == ed25519_signature_of(secret_key@, message@),
{
    <[u8; 64]>::from(Keypair::new_from_array(*secret_key).sign_message(message))
}

impl TransactionConfig {
    pub fn new(
        secret_key: [u8; 32],
        compute_unit_limit: u32,
        compute_unit_price: u64,
        tip: u64,
        buy_amount: u64,
        min_amount_out: u64,
    ) -> (r: TransactionConfig)
        ensures
            r.secret_key == secret_key,
            r.compute_unit_limit == compute_unit_limit,
            r.compute_unit_price == compute_unit_price,
            r.tip == tip,
            r.buy_amount == buy_amount,
            r.min_amount_out == min_amount_out,
    {
        TransactionConfig { secret_key, compute_unit_limit, compute_unit_price, tip, buy_amount, min_amount_out }
    }

    /// The signer's address.
    pub fn signer(&self) -> (r: Address)
        ensures
            r@ == signer_of(*self),
    {
        keypair_address(&self.secret_key)
    }
}

// ----- instructions of other programs -----

pub open spec fn compute_unit_limit_model(units: u32) -> InstructionModel {
    InstructionModel {
        program_id: spec_compute_budget_program(),
        accounts: Seq::empty(),
        data: seq![2u8] + le_bytes(units as nat, 4),
    }
}

pub open spec fn compute_unit_price_model(micro_lamports: u64) -> InstructionModel {
    InstructionModel {
        program_id: spec_compute_budget_program(),
        accounts: Seq::empty(),
        data: seq![3u8] + le_bytes(micro_lamports as nat, 8),
    }
}

pub open spec fn transfer_model(from: Seq<u8>, to: Seq<u8>, lamports: u64) -> InstructionModel {
    InstructionModel {
        program_id: spec_system_program(),
        accounts: seq![writable(from, true), writable(to, false)],
        data: le_bytes(2, 4) + le_bytes(lamports as nat, 8),
    }
}

pub open spec fn create_ata_model(funder: Seq<u8>, wallet: Seq<u8>, mint: Seq<u8>) -> InstructionModel {
    InstructionModel {
        program_id: spec_associated_token_program(),
        accounts: seq![
            writable(funder, true),
            writable(associated_token_address_of(wallet, mint), false),
            readonly(wallet, false),
            readonly(mint, false),
            readonly(spec_system_program(), false),
            readonly(spec_token_program(), false),
        ],
        data: seq![0u8],
    }
}

pub open spec fn sync_native_model(account: Seq<u8>) -> InstructionModel {
    InstructionModel {
        program_id: spec_token_program(),
        accounts: seq![writable(account, false)],
        data: seq![17u8],
    }
}

/// The address of `wallet`'s token account for `mint` under the token
/// program, as the associated-token-account program derives it.
pub uninterp spec fn associated_token_address_of(wallet: Seq<u8>, mint: Seq<u8>) -> Seq<u8>;

/// Relies on `ComputeBudgetInstruction::set_compute_unit_limit`: variant 2,
/// then the limit in four little-endian bytes, no accounts.
#[verifier::external_body]
fn compute_unit_limit_ix(units: u32) -> (r: Instruction)
    ensures
        r@ == compute_unit_limit_model(units),
{
    let ix = solana_sdk::compute_budget::ComputeBudgetInstruction::set_compute_unit_limit(units);
    Instruction {
        program_id: Address { bytes: ix.program_id.to_bytes() },
        accounts: ix.accounts.iter().map(|m| AccountRef { address: Address { bytes: m.pubkey.to_bytes() }, is_signer: m.is_signer, is_writable: m.is_writable }).collect(),
        data: ix.data,
    }
}

/// Relies on `ComputeBudgetInstruction::set_compute_unit_price`: variant 3,
/// then the price in eight little-endian bytes, no accounts.
#[verifier::external_body]
fn compute_unit_price_ix(micro_lamports: u64) -> (r: Instruction)
    ensures
        r@ == compute_unit_price_model(micro_lamports),
{
    let ix = solana_sdk::compute_budget::ComputeBudgetInstruction::set_compute_unit_price(micro_lamports);
    Instruction {
        program_id: Address { bytes: ix.program_id.to_bytes() },
        accounts: ix.accounts.iter().map(|m| AccountRef { address: Address { bytes: m.pubkey.to_bytes() }, is_signer: m.is_signer, is_writable: m.is_writable }).collect(),
        data: ix.data,
    }
}

/// Relies on the system program's `transfer` builder: the bincode form of
/// `Transfer { lamports }` (variant 2 as four bytes, then the amount), the
/// payer as writable signer, the recipient as writable.
#[verifier::external_body]
fn transfer_ix(from: &Address, to: &Address, lamports: u64) -> (r: Instruction)
    ensures
        r@ == transfer_model(from@, to@, lamports),
{
    let ix = solana_sdk::system_instruction::transfer(&Pubkey::new_from_array(from.bytes), &Pubkey::new_from_array(to.bytes), lamports);
    Instruction {
        program_id: Address { bytes: ix.program_id.to_bytes() },
        accounts: ix.accounts.iter().map(|m| AccountRef { address: Address { bytes: m.pubkey.to_bytes() }, is_signer: m.is_signer, is_writable: m.is_writable }).collect(),
        data: ix.data,
    }
}

/// Relies on `get_associated_token_address` of the associated-token-account
/// client: the derived address depends on the wallet and the mint alone.
#[verifier::external_body]
fn associated_token_address(wallet: &Address, mint: &Address) -> (r: Address)
    ensures
        r@ == associated_token_address_of(wallet@, mint@),
{
    let ata = spl_associated_token_account_client::address::get_associated_token_address(&Pubkey::new_from_array(wallet.bytes), &Pubkey::new_from_array(mint.bytes));
    Address { bytes: ata.to_bytes() }
}

/// Relies on `create_associated_token_account` of the associated-token-account
/// client: instruction 0 of that program, with the six accounts in its order;
/// under the token program the derived address is the one
/// `get_associated_token_address` gives.
#[verifier::external_body]
fn create_ata_ix(funder: &Address, wallet: &Address, mint: &Address, token_program: &Address) -> (r: Instruction)
    requires
        token_program@ == spec_token_program(),
    ensures
        r@ == create_ata_model(funder@, wallet@, mint@),
{
    let pk = Pubkey::new_from_array;
    let ix = spl_associated_token_account_client::instruction::create_associated_token_account(&pk(funder.bytes), &pk(wallet.bytes), &pk(mint.bytes), &pk(token_program.bytes));
    Instruction {
        program_id: Address { bytes: ix.program_id.to_bytes() },
        accounts: ix.accounts.iter().map(|m| AccountRef { address: Address { bytes: m.pubkey.to_bytes() }, is_signer: m.is_signer, is_writable: m.is_writable }).collect(),
        data: ix.data,
    }
}

/// Relies on `spl_token::instruction::sync_native`: it refuses any program
/// but the token program, else gives instruction 17 on the one account.
#[verifier::external_body]
fn sync_native_ix(token_program: &Address, account: &Address) -> (r: Result<Instruction, BuildError>)
    ensures
        r is Ok <==> token_program@ == spec_token_program(),
        r matches Ok(ix) ==> ix@ == sync_native_model(account@),
{
    let pk = Pubkey::new_from_array;
    let ix = spl_token::instruction::sync_native(&pk(token_program.bytes), &pk(account.bytes)).map_err(|_| BuildError::TokenProgram)?;
    Ok(Instruction {
        program_id: Address { bytes: ix.program_id.to_bytes() },
        accounts: ix.accounts.iter().map(|m| AccountRef { address: Address { bytes: m.pubkey.to_bytes() }, is_signer: m.is_signer, is_writable: m.is_writable }).collect(),
        data: ix.data,
    })
}


/// At most eight instructions of at most fifteen accounts each: with the payer
/// and the programs that is at most 129 distinct keys, so every key index and
/// header count fits in a byte.
pub open spec fn fits_in_message(ixs: Seq<InstructionModel>) -> bool {
    ixs.len() <= 8 && forall|i: int| 0 <= i < ixs.len() ==> #[trigger] ixs[i].accounts.len() <= 15
}

/// Relies on `v0::Message::try_compile` (no lookup tables) and the message's
/// versioned wire form: the compiled message depends on its inputs alone, and
/// compiling fails only when a key index or a header count overflows a byte.
#[verifier::external_body]
fn compile_message(payer: &Address, ixs: &Vec<Instruction>, recent_blockhash: &[u8; 32]) -> (r: Result<Vec<u8>, BuildError>)
    ensures
        r matches Ok(m) ==> m@ == v0_message_of(payer@, models(ixs@), recent_blockhash@),
        r matches Err(e) ==> e == BuildError::Compile,
        fits_in_message(models(ixs@)) ==> r is Ok,
{
    let pk = Pubkey::new_from_array;
    let sdk: Vec<SdkInstruction> = ixs.iter().map(|ix| SdkInstruction { program_id: pk(ix.program_id.bytes), accounts: ix.accounts.iter().map(|a| AccountMeta { pubkey: pk(a.address.bytes), is_signer: a.is_signer, is_writable: a.is_writable }).collect(), data: ix.data.clone() }).collect();
    let m = v0::Message::try_compile(&pk(payer.bytes), &sdk, &[], solana_sdk::hash::Hash::new_from_array(*recent_blockhash)).map_err(|_| BuildError::Compile)?;
    Ok(VersionedMessage::V0(m).serialize())
}

/// The serialized version-0 message that compiling the instructions for the
/// payer and the recent block hash gives.
pub uninterp spec fn v0_message_of(payer: Seq<u8>, ixs: Seq<InstructionModel>, recent_blockhash: Seq<u8>) -> Seq<u8>;

// ----- the buy transaction -----

/// The method selector of the pool program's swap.
pub const SWAP_SELECTOR: u64 = 0xf8c69e91e17587c8;

/// The fixed tip recipient of each channel kind; the plain node takes none.
pub open spec fn spec_tip_recipient(kind: RpcType) -> Option<Seq<u8>> {
    match kind {
        RpcType::SolanaRpc => None,
        RpcType::Jito => Some(spec_jito_tip()),
        RpcType::Bloxroute => Some(spec_bloxroute_tip()),
        RpcType::Nextblock => Some(spec_nextblock_tip()),
    }
}

pub fn tip_recipient(kind: RpcType) -> (r: Option<Address>)
    ensures
        r is Some <==> spec_tip_recipient(kind) is Some,
        r matches Some(a) ==> spec_tip_recipient(kind) == Some(a@),
{
    match kind {
        RpcType::SolanaRpc => None,
        RpcType::Jito => Some(jito_tip()),
        RpcType::Bloxroute => Some(bloxroute_tip()),
        RpcType::Nextblock => Some(nextblock_tip()),
    }
}

/// The compute-budget instructions: the limit, then the price, each only
/// when it is positive.
pub open spec fn budget_part(cfg: TransactionConfig) -> Seq<InstructionModel> {
    (if cfg.compute_unit_limit > 0 { seq![compute_unit_limit_model(cfg.compute_unit_limit)] } else { Seq::empty() })
        + (if cfg.compute_unit_price > 0 { seq![compute_unit_price_model(cfg.compute_unit_price)] } else { Seq::empty() })
}

/// The tip transfer: present when the tip is positive and the channel has a
/// recipient.
pub open spec fn tip_part(cfg: TransactionConfig, kind: RpcType) -> Seq<InstructionModel> {
    if cfg.tip > 0 && spec_tip_recipient(kind) is Some {
        seq![transfer_model(signer_of(cfg), spec_tip_recipient(kind)->Some_0, cfg.tip)]
    } else {
        Seq::empty()
    }
}

/// The signer's token account for the wrapped native currency.
pub open spec fn wrapped_account(cfg: TransactionConfig) -> Seq<u8> {
    associated_token_address_of(signer_of(cfg), spec_wrapped_native_mint())
}

/// Account setup: the wrapped account, the amount moved into it, its sync,
/// then the token account for the pool's mint.
pub open spec fn setup_part(cfg: TransactionConfig, b: AccountsForBuy) -> Seq<InstructionModel> {
    seq![
        create_ata_model(signer_of(cfg), signer_of(cfg), spec_wrapped_native_mint()),
        transfer_model(signer_of(cfg), wrapped_account(cfg), cfg.buy_amount),
        sync_native_model(wrapped_account(cfg)),
        create_ata_model(signer_of(cfg), signer_of(cfg), b.a_token_mint@),
    ]
}

/// The swap's payload: selector, minimum output, amount in.
pub open spec fn swap_data(cfg: TransactionConfig) -> Seq<u8> {
    le_bytes(SWAP_SELECTOR as nat, 8) + le_bytes(cfg.min_amount_out as nat, 8) + le_bytes(cfg.buy_amount as nat, 8)
}

/// The swap's fifteen accounts, in the pool program's order.
pub open spec fn swap_accounts(cfg: TransactionConfig, b: AccountsForBuy) -> Seq<AccountModel> {
    seq![
        writable(b.pool@, false),
        writable(wrapped_account(cfg), false),
        writable(associated_token_address_of(signer_of(cfg), b.a_token_mint@), false),
        writable(b.a_vault@, false),
        writable(b.b_vault@, false),
        writable(b.a_token_vault@, false),
        writable(b.b_token_vault@, false),
        writable(b.a_vault_lp_mint@, false),
        writable(b.b_vault_lp_mint@, false),
        writable(b.a_vault_lp@, false),
        writable(b.b_vault_lp@, false),
        writable(b.protocol_token_fee@, false),
        readonly(signer_of(cfg), true),
        readonly(spec_vault_program(), false),
        readonly(spec_token_program(), false),
    ]
}

pub open spec fn swap_model(cfg: TransactionConfig, b: AccountsForBuy) -> InstructionModel {
    InstructionModel { program_id: spec_pools_program(), accounts: swap_accounts(cfg, b), data: swap_data(cfg) }
}

/// The buy transaction's instructions, in order.
pub open spec fn buy_instructions(cfg: TransactionConfig, kind: RpcType, b: AccountsForBuy) -> Seq<InstructionModel> {
    budget_part(cfg) + tip_part(cfg, kind) + setup_part(cfg, b) + seq![swap_model(cfg, b)]
}

proof fn lemma_models_push(s: Seq<Instruction>, x: Instruction)
    ensures
        models(s.push(x)) == models(s).push(x@),
{
    assert(models(s.push(x)) =~= models(s).push(x@));
}

fn swap_instruction(cfg: &TransactionConfig, b: &AccountsForBuy, owner: Address, source: Address, destination: Address) -> (r: Instruction)
    requires
        owner@ == signer_of(*cfg),
        source@ == wrapped_account(*cfg),
        destination@ == associated_token_address_of(signer_of(*cfg), b.a_token_mint@),
    ensures
        r@ == swap_model(*cfg, *b),
{
    let mut data: Vec<u8> = Vec::new();
    let sel = u64_le(SWAP_SELECTOR);
    let min_out = u64_le(cfg.min_amount_out);
    let amount = u64_le(cfg.buy_amount);
    extend(&mut data, sel.as_slice());
    extend(&mut data, min_out.as_slice());
    extend(&mut data, amount.as_slice());
    let accounts = vec![
        AccountRef::writable(b.pool, false),
        AccountRef::writable(source, false),
        AccountRef::writable(destination, false),
        AccountRef::writable(b.a_vault, false),
        AccountRef::writable(b.b_vault, false),
        AccountRef::writable(b.a_token_vault, false),
        AccountRef::writable(b.b_token_vault, false),
        AccountRef::writable(b.a_vault_lp_mint, false),
        AccountRef::writable(b.b_vault_lp_mint, false),
        AccountRef::writable(b.a_vault_lp, false),
        AccountRef::writable(b.b_vault_lp, false),
        AccountRef::writable(b.protocol_token_fee, false),
        AccountRef::readonly(owner, true),
        AccountRef::readonly(vault_program(), false),
        AccountRef::readonly(token_program(), false),
    ];
    let r = Instruction { program_id: pools_program(), accounts, data };
    assert(r@.accounts =~= swap_accounts(*cfg, *b));
    assert(r@.data =~= swap_data(*cfg));
    r
}

/// The ordered instruction list of the buy transaction for a channel kind.
pub fn buy_instruction_list(cfg: &TransactionConfig, kind: RpcType, b: &AccountsForBuy) -> (r: Vec<Instruction>)
    ensures
        models(r@) == buy_instructions(*cfg, kind, *b),
{
    let owner = cfg.signer();
    let mut ixs: Vec<Instruction> = Vec::new();
    if cfg.compute_unit_limit > 0 {
        let ix = compute_unit_limit_ix(cfg.compute_unit_limit);
        proof { lemma_models_push(ixs@, ix); }
        ixs.push(ix);
    }
    if cfg.compute_unit_price > 0 {
        let ix = compute_unit_price_ix(cfg.compute_unit_price);
        proof { lemma_models_push(ixs@, ix); }
        ixs.push(ix);
    }
    assert(models(ixs@) =~= budget_part(*cfg));
    if cfg.tip > 0 {
        if let Some(recipient) = tip_recipient(kind) {
            let ix = transfer_ix(&owner, &recipient, cfg.tip);
            proof { lemma_models_push(ixs@, ix); }
            ixs.push(ix);
        }
    }
    assert(models(ixs@) =~= budget_part(*cfg) + tip_part(*cfg, kind));
    let ghost before = models(ixs@);
    let wsol = wrapped_native_mint();
    let tokens = token_program();
    let source = associated_token_address(&owner, &wsol);
    let destination = associated_token_address(&owner, &b.a_token_mint);

    let ix = create_ata_ix(&owner, &owner, &wsol, &tokens);
    proof { lemma_models_push(ixs@, ix); }
    ixs.push(ix);
    let ix = transfer_ix(&owner, &source, cfg.buy_amount);
    proof { lemma_models_push(ixs@, ix); }
    ixs.push(ix);
    let sync = sync_native_ix(&tokens, &source);
    let ix = match sync {
        Ok(ix) => ix,
        Err(_) => {
            // the token program's own address is always accepted
            assert(false);
            return ixs;
        },
    };
    proof { lemma_models_push(ixs@, ix); }
    ixs.push(ix);
    let ix = create_ata_ix(&owner, &owner, &b.a_token_mint, &tokens);
    proof { lemma_models_push(ixs@, ix); }
    ixs.push(ix);
    let ix = swap_instruction(cfg, b, owner, source, destination);
    proof { lemma_models_push(ixs@, ix); }
    ixs.push(ix);
    assert(models(ixs@) =~= before + setup_part(*cfg, *b) + seq![swap_model(*cfg, *b)]);
    ixs
}

/// A signed buy transaction: its instructions, its serialized message, the
/// signer's signature of the message, and the transaction's wire form.
#[derive(Clone, Debug)]
pub struct BuiltTransaction {
    pub instructions: Vec<Instruction>,
    pub message: Vec<u8>,
    pub signature: [u8; 64],
    pub wire: Vec<u8>,
}

/// The wire form of a transaction with one signature: the signature count
/// (a one-byte compact length), the signature, the message.
pub open spec fn single_signer_wire(signature: Seq<u8>, message: Seq<u8>) -> Seq<u8> {
    seq![1u8] + signature + message
}

/// `t` is the transaction that the inputs give.
pub open spec fn built_from(
    t: BuiltTransaction,
    cfg: TransactionConfig,
    kind: RpcType,
    recent_blockhash: Seq<u8>,
    b: AccountsForBuy,
) -> bool {
    &&& models(t.instructions@) == buy_instructions(cfg, kind, b)
    &&& t.message@ == v0_message_of(signer_of(cfg), buy_instructions(cfg, kind, b), recent_blockhash)
    &&& t.signature@ == ed25519_signature_of(cfg.secret_key@, t.message@)
    &&& t.wire@ == single_signer_wire(t.signature@, t.message@)
}

/// The buy transaction always fits in one message.
pub proof fn lemma_buy_instructions_fit(cfg: TransactionConfig, kind: RpcType, b: AccountsForBuy)
    ensures
        fits_in_message(buy_instructions(cfg, kind, b)),
{
    let l = buy_instructions(cfg, kind, b);
    let nb = budget_part(cfg).len();
    let nt = tip_part(cfg, kind).len();
    assert forall|i: int| 0 <= i < l.len() implies #[trigger] l[i].accounts.len() <= 15 by {
        if i < nb {
            assert(l[i] == budget_part(cfg)[i]);
        } else if i < nb + nt {
            assert(l[i] == tip_part(cfg, kind)[i - nb]);
        } else if i < nb + nt + 4 {
            assert(l[i] == setup_part(cfg, b)[i - nb - nt]);
        } else {
            assert(l[i] == swap_model(cfg, b));
        }
    }
}

/// Builds, compiles and signs the buy transaction for a channel kind.
pub fn build_transaction_with_config(
    cfg: &TransactionConfig,
    kind: RpcType,
    recent_blockhash: [u8; 32],
    b: AccountsForBuy,
) -> (r: Result<BuiltTransaction, BuildError>)
    ensures
        r is Ok,
        r matches Ok(t) ==> built_from(t, *cfg, kind, recent_blockhash@, b),
{
    let owner = cfg.signer();
    let instructions = buy_instruction_list(cfg, kind, &b);
    proof { lemma_buy_instructions_fit(*cfg, kind, b); }
    let message = compile_message(&owner, &instructions, &recent_blockhash)?;
    let signature = sign_message(&cfg.secret_key, &message);
    let mut wire: Vec<u8> = Vec::new();
    wire.push(1u8);
    extend(&mut wire, signature.as_slice());
    extend(&mut wire, message.as_slice());
    assert(wire@ =~= single_signer_wire(signature@, message@));
    Ok(BuiltTransaction { instructions, message, signature, wire })
}

/// Building twice from the same inputs gives the same instructions, in the
/// same order, and byte-identical unsigned messages.
pub proof fn lemma_build_reproducible(
    t1: BuiltTransaction,
    t2: BuiltTransaction,
    cfg: TransactionConfig,
    kind: RpcType,
    recent_blockhash: Seq<u8>,
    b: AccountsForBuy,
)
    requires
        built_from(t1, cfg, kind, recent_blockhash, b),
        built_from(t2, cfg, kind, recent_blockhash, b),
    ensures
        models(t1.instructions@) == models(t2.instructions@),
        t1.message@ == t2.message@,
{
}

/// The instruction is a compute-budget directive.
pub open spec fn is_budget(ix: InstructionModel) -> bool {
    ix.program_id == spec_compute_budget_program()
}

/// The instruction calls the pool program.
pub open spec fn is_swap(ix: InstructionModel) -> bool {
    ix.program_id == spec_pools_program()
}

/// The instruction transfers the configured tip to the channel's recipient.
pub open spec fn is_tip(ix: InstructionModel, cfg: TransactionConfig, kind: RpcType) -> bool {
    spec_tip_recipient(kind) is Some && ix == transfer_model(signer_of(cfg), spec_tip_recipient(kind)->Some_0, cfg.tip)
}

proof fn lemma_programs_distinct()
    ensures
        spec_associated_token_program() != spec_compute_budget_program(),
        spec_system_program() != spec_compute_budget_program(),
        spec_token_program() != spec_compute_budget_program(),
        spec_pools_program() != spec_compute_budget_program(),
        spec_associated_token_program() != spec_pools_program(),
        spec_system_program() != spec_pools_program(),
        spec_token_program() != spec_pools_program(),
        spec_system_program() != spec_associated_token_program(),
        spec_token_program() != spec_associated_token_program(),
{
    assert(spec_associated_token_program()[0] != spec_compute_budget_program()[0]);
    assert(spec_system_program()[0] != spec_compute_budget_program()[0]);
    assert(spec_token_program()[0] != spec_compute_budget_program()[0]);
    assert(spec_pools_program()[0] != spec_compute_budget_program()[0]);
    assert(spec_associated_token_program()[0] != spec_pools_program()[0]);
    assert(spec_system_program()[0] != spec_pools_program()[0]);
    assert(spec_token_program()[0] != spec_pools_program()[0]);
    assert(spec_system_program()[0] != spec_associated_token_program()[0]);
    assert(spec_token_program()[0] != spec_associated_token_program()[0]);
}

/// The compute-budget directives (at most two) come first, then the tip
/// transfer (at most one), then the four account-setup instructions, and the
/// swap comes last; no other instruction is a compute-budget directive or
/// calls the pool program.
pub proof fn lemma_instruction_order(cfg: TransactionConfig, kind: RpcType, b: AccountsForBuy)
    ensures
        ({
            let l = buy_instructions(cfg, kind, b);
            let nb = budget_part(cfg).len();
            let nt = tip_part(cfg, kind).len();
            &&& nb <= 2 && nt <= 1
            &&& l.len() == nb + nt + 5
            &&& forall|i: int| 0 <= i < nb ==> #[trigger] is_budget(l[i])
            &&& forall|i: int| nb <= i < l.len() ==> !#[trigger] is_budget(l[i])
            &&& forall|i: int| nb <= i < nb + nt ==> #[trigger] is_tip(l[i], cfg, kind)
            &&& forall|i: int| nb + nt <= i < nb + nt + 4 ==> #[trigger] l[i] == setup_part(cfg, b)[i - nb - nt]
            &&& is_swap(l[l.len() - 1])
            &&& forall|i: int| 0 <= i < l.len() - 1 ==> !#[trigger] is_swap(l[i])
        }),
{
    lemma_programs_distinct();
    let l = buy_instructions(cfg, kind, b);
    let nb = budget_part(cfg).len();
    let nt = tip_part(cfg, kind).len();
    assert forall|i: int| 0 <= i < l.len() implies
        (i < nb ==> is_budget(l[i])) && (nb <= i ==> !is_budget(l[i])) && (i < l.len() - 1 ==> !is_swap(l[i]))
        && (nb <= i < nb + nt ==> is_tip(l[i], cfg, kind))
        && (nb + nt <= i < nb + nt + 4 ==> l[i] == setup_part(cfg, b)[i - nb - nt]) by {
        if i < nb {
            assert(l[i] == budget_part(cfg)[i]);
        } else if i < nb + nt {
            assert(l[i] == tip_part(cfg, kind)[i - nb]);
        } else if i < nb + nt + 4 {
            assert(l[i] == setup_part(cfg, b)[i - nb - nt]);
        }
    }
}

/// Each relay kind tips its own fixed recipient, the three recipients are
/// distinct, and the plain node's transaction holds no tip transfer.
pub proof fn lemma_tip_recipients(cfg: TransactionConfig, b: AccountsForBuy)
    ensures
        cfg.tip > 0 ==> tip_part(cfg, RpcType::Jito) == seq![transfer_model(signer_of(cfg), spec_jito_tip(), cfg.tip)],
        cfg.tip > 0 ==> tip_part(cfg, RpcType::Bloxroute) == seq![transfer_model(signer_of(cfg), spec_bloxroute_tip(), cfg.tip)],
        cfg.tip > 0 ==> tip_part(cfg, RpcType::Nextblock) == seq![transfer_model(signer_of(cfg), spec_nextblock_tip(), cfg.tip)],
        cfg.tip == 0 ==> forall|k: RpcType| tip_part(cfg, k).len() == 0,
        tip_part(cfg, RpcType::SolanaRpc).len() == 0,
        buy_instructions(cfg, RpcType::SolanaRpc, b).len() == budget_part(cfg).len() + 5,
        spec_jito_tip() != spec_bloxroute_tip(),
        spec_jito_tip() != spec_nextblock_tip(),
        spec_bloxroute_tip() != spec_nextblock_tip(),
{
    assert(spec_jito_tip()[0] != spec_bloxroute_tip()[0]);
    assert(spec_jito_tip()[0] != spec_nextblock_tip()[0]);
    assert(spec_bloxroute_tip()[0] != spec_nextblock_tip()[0]);
}

/// The channel kind changes the buy transaction only through the tip: apart
/// from the tip transfer the instructions are the same for every kind, and
/// with no tip configured the whole list, and so the message, is.
pub proof fn lemma_channel_changes_only_tip(
    cfg: TransactionConfig,
    k1: RpcType,
    k2: RpcType,
    recent_blockhash: Seq<u8>,
    b: AccountsForBuy,
)
    ensures
        buy_instructions(cfg, k1, b) == budget_part(cfg) + tip_part(cfg, k1) + setup_part(cfg, b) + seq![swap_model(cfg, b)],
        buy_instructions(cfg, k2, b) == budget_part(cfg) + tip_part(cfg, k2) + setup_part(cfg, b) + seq![swap_model(cfg, b)],
        cfg.tip == 0 ==> buy_instructions(cfg, k1, b) == buy_instructions(cfg, k2, b),
        cfg.tip == 0 ==> v0_message_of(signer_of(cfg), buy_instructions(cfg, k1, b), recent_blockhash)
            == v0_message_of(signer_of(cfg), buy_instructions(cfg, k2, b), recent_blockhash),
{
}

} // verus!
