//! Recognises the pool program's "create pool" instruction and takes from it
//! the accounts that a swap against the new pool needs.
use vstd::prelude::*;
use crate::address::{pools_program, spec_pools_program, Address};
use crate::bytes::le_value;
use crate::instruction::{AccountModel, Instruction};

verus! {

/// Size of the method discriminator that starts an instruction's payload.
pub const IX_DISCRIMINATOR_SIZE: usize = 8;

/// The discriminator of the pool program's "create pool" method.
pub open spec fn spec_create_disc() -> Seq<u8> {
    seq![0x30u8, 0x95, 0xdc, 0x82, 0x3d, 0x0b, 0x09, 0xb2]
}

/// Returns the discriminator of the "create pool" method.
pub fn create_ix_disc() -> (r: [u8; 8])
    ensures
        r@ == spec_create_disc(),
{
    let r: [u8; 8] = [0x30u8, 0x95, 0xdc, 0x82, 0x3d, 0x0b, 0x09, 0xb2];
    assert(r@ =~= spec_create_disc());
    r
}

/// The fixed-layout arguments of the "create pool" method.
#[derive(Clone, Copy, Debug)]
pub struct CreateIxData {
    pub token_a: u64,
    pub token_b: u64,
}

/// Relies on borsh's `BorshDeserialize` for `u64`: it reads eight bytes,
/// least significant first, and fails when fewer than eight are left.
#[verifier::external_body]
fn borsh_u64(b: &[u8]) -> (r: Option<u64>)
    ensures
        r is Some <==> b@.len() >= 8,
        r matches Some(v) ==> v as nat == le_value(b@.subrange(0, 8)),
{
    let mut rest = b;
    <u64 as borsh::BorshDeserialize>::deserialize(&mut rest).ok()
}

impl CreateIxData {
    /// Reads the two amounts that follow the discriminator. `None` when the
    /// payload holds fewer than sixteen bytes.
    pub fn decode(payload: &[u8]) -> (r: Option<CreateIxData>)
        ensures
            r is Some <==> payload@.len() >= 16,
            r matches Some(d) ==> {
                &&& d.token_a as nat == le_value(payload@.subrange(0, 8))
                &&& d.token_b as nat == le_value(payload@.subrange(8, 16))
            },
    {
        let a = borsh_u64(payload);
        match a {
            None => None,
            Some(token_a) => {
                let (_, rest) = payload.split_at(8);
                let b = borsh_u64(rest);
                match b {
                    None => None,
                    Some(token_b) => {
                        assert(rest@.subrange(0, 8) =~= payload@.subrange(8, 16));
                        Some(CreateIxData { token_a, token_b })
                    },
                }
            },
        }
    }
}

/// The eleven addresses that a swap against a freshly created pool needs.
#[derive(Clone, Copy, Debug)]
pub struct AccountsForBuy {
    pub pool: Address,
    pub a_token_mint: Address,
    pub a_vault: Address,
    pub b_vault: Address,
    pub a_token_vault: Address,
    pub b_token_vault: Address,
    pub a_vault_lp_mint: Address,
    pub b_vault_lp_mint: Address,
    pub a_vault_lp: Address,
    pub b_vault_lp: Address,
    pub protocol_token_fee: Address,
}

/// Why a candidate instruction could not be decoded.
#[derive(Clone, Copy, Debug, PartialEq, Eq, Structural)]
pub enum DecodeError {
    /// The payload is shorter than the discriminator.
    ShortPayload,
    /// The fixed-layout arguments after the discriminator are incomplete.
    MalformedArguments,
    /// The account list ends before the highest position read.
    MissingAccounts,
}

/// Position of the last account that the bundle reads.
pub const LAST_ACCOUNT_INDEX: usize = 17;

/// `b` holds the accounts at the fixed positions of the create instruction.
pub open spec fn bundle_from(b: AccountsForBuy, accounts: Seq<AccountModel>) -> bool {
    &&& b.pool@ == accounts[0].address
    &&& b.a_token_mint@ == accounts[3].address
    &&& b.a_vault@ == accounts[5].address
    &&& b.b_vault@ == accounts[6].address
    &&& b.a_token_vault@ == accounts[7].address
    &&& b.b_token_vault@ == accounts[8].address
    &&& b.a_vault_lp_mint@ == accounts[9].address
    &&& b.b_vault_lp_mint@ == accounts[10].address
    &&& b.a_vault_lp@ == accounts[11].address
    &&& b.b_vault_lp@ == accounts[12].address
    &&& b.protocol_token_fee@ == accounts[17].address
}

/// The instruction calls the pool program.
pub open spec fn targets_pool_program(ix: Instruction) -> bool {
    ix@.program_id == spec_pools_program()
}

/// The payload starts with the "create pool" discriminator.
pub open spec fn has_create_disc(ix: Instruction) -> bool {
    ix@.data.len() >= 8 && ix@.data.subrange(0, 8) == spec_create_disc()
}

/// What decoding `ix` yields: no match, a bundle, or an error.
pub open spec fn decode_outcome(ix: Instruction) -> Result<Option<()>, DecodeError> {
    if !targets_pool_program(ix) {
        Ok(None)
    } else if ix@.data.len() < 8 {
        Err(DecodeError::ShortPayload)
    } else if !has_create_disc(ix) {
        Ok(None)
    } else if ix@.data.len() < 24 {
        Err(DecodeError::MalformedArguments)
    } else if ix@.accounts.len() <= 17 {
        Err(DecodeError::MissingAccounts)
    } else {
        Ok(Some(()))
    }
}

fn same_disc(data: &[u8], disc: &[u8; 8]) -> (r: bool)
    requires
        data@.len() >= 8,
    ensures
        r == (data@.subrange(0, 8) == disc@),
{
    let mut i: usize = 0;
    while i < 8
        invariant
            i <= 8,
            data@.len() >= 8,
            disc@.len() == 8,
            forall|j: int| 0 <= j < i ==> data@[j] == disc@[j],
        decreases 8 - i,
    {
        if data[i] != disc[i] {
            assert(data@.subrange(0, 8)[i as int] != disc@[i as int]);
            return false;
        }
        i = i + 1;
    }
    assert(data@.subrange(0, 8) =~= disc@);
    true
}

/// Decodes one instruction. `Ok(None)` when it is not a "create pool" call
/// of the pool program; `Ok(Some(bundle))` with the accounts at their fixed
/// positions when it is; an error when it is one but malformed.
pub fn decode_create(ix: &Instruction) -> (r: Result<Option<AccountsForBuy>, DecodeError>)
    ensures
        r matches Ok(None) ==> decode_outcome(*ix) == Ok::<Option<()>, DecodeError>(None),
        r matches Ok(Some(b)) ==> decode_outcome(*ix) == Ok::<Option<()>, DecodeError>(Some(()))
            && bundle_from(b, ix@.accounts),
        r matches Err(e) ==> decode_outcome(*ix) == Err::<Option<()>, DecodeError>(e),
{
    let program = pools_program();
    if !ix.program_id.same_as(&program) {
        return Ok(None);
    }
    if ix.data.len() < IX_DISCRIMINATOR_SIZE {
        return Err(DecodeError::ShortPayload);
    }
    let disc = create_ix_disc();
    if !same_disc(ix.data.as_slice(), &disc) {
        return Ok(None);
    }
    let (_, payload) = ix.data.as_slice().split_at(IX_DISCRIMINATOR_SIZE);
    let args = CreateIxData::decode(payload);
    if args.is_none() {
        return Err(DecodeError::MalformedArguments);
    }
    if ix.accounts.len() <= LAST_ACCOUNT_INDEX {
        return Err(DecodeError::MissingAccounts);
    }
    let a = &ix.accounts;
    let bundle = AccountsForBuy {
        pool: a[0].address,
        a_token_mint: a[3].address,
        a_vault: a[5].address,
        b_vault: a[6].address,
        a_token_vault: a[7].address,
        b_token_vault: a[8].address,
        a_vault_lp_mint: a[9].address,
        b_vault_lp_mint: a[10].address,
        a_vault_lp: a[11].address,
        b_vault_lp: a[12].address,
        protocol_token_fee: a[17].address,
    };
    Ok(Some(bundle))
}

/// An instruction of any other program is never a match.
pub proof fn lemma_foreign_program_no_match(ix: Instruction)
    requires
        !targets_pool_program(ix),
    ensures
        decode_outcome(ix) == Ok::<Option<()>, DecodeError>(None),
{
}

/// An instruction of the pool program whose payload does not start with the
/// "create pool" discriminator never yields a bundle; with a payload of at
/// least the discriminator's size it is a plain no-match.
pub proof fn lemma_other_discriminator_no_match(ix: Instruction)
    requires
        targets_pool_program(ix),
        !has_create_disc(ix),
    ensures
        decode_outcome(ix) != Ok::<Option<()>, DecodeError>(Some(())),
        ix@.data.len() >= 8 ==> decode_outcome(ix) == Ok::<Option<()>, DecodeError>(None),
{
}

} // verus!
