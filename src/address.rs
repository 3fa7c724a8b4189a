//! Fixed-length on-chain addresses and the fixed program addresses that the
//! pool sniper works with.
use vstd::prelude::*;

verus! {

/// A 32-byte on-chain address.
#[derive(Clone, Copy, Debug)]
pub struct Address {
    pub bytes: [u8; 32],
}

impl View for Address {
    type V = Seq<u8>;

    open spec fn view(&self) -> Seq<u8> {
        self.bytes@
    }
}

impl Address {
    pub fn new(bytes: [u8; 32]) -> (r: Address)
        ensures
            r@ == bytes@,
    {
        Address { bytes }
    }

    pub fn to_bytes(&self) -> (r: [u8; 32])
        ensures
            r@ == self@,
    {
        self.bytes
    }

    /// Byte-wise comparison of two addresses.
    pub fn same_as(&self, other: &Address) -> (r: bool)
        ensures
            r == (self@ == other@),
    {
        let mut i: usize = 0;
        while i < 32
            invariant
                i <= 32,
                self@.len() == 32,
                other@.len() == 32,
                forall|j: int| 0 <= j < i ==> self@[j] == other@[j],
            decreases 32 - i,
        {
            if self.bytes[i] != other.bytes[i] {
                return false;
            }
            i = i + 1;
        }
        assert(self@ =~= other@);
        true
    }
}

pub open spec fn spec_pools_program() -> Seq<u8> {
    seq![204u8, 248, 2, 212, 204, 204, 132, 215, 251, 33, 181, 247, 59, 73, 216, 26, 22, 197, 180, 200, 142, 227, 35, 148, 225, 201, 29, 53, 136, 204, 64, 128]
}

/// The liquidity-pool program whose pool creations are watched and whose swap is called. (`Eo7WjKq67rjJQSZxS6z3YkapzY3eMj6Xy8X5EQVn5UaB`)
pub fn pools_program() -> (r: Address)
    ensures
        r@ == spec_pools_program(),
{
    let r = Address { bytes: [204u8, 248, 2, 212, 204, 204, 132, 215, 251, 33, 181, 247, 59, 73, 216, 26, 22, 197, 180, 200, 142, 227, 35, 148, 225, 201, 29, 53, 136, 204, 64, 128] };
    assert(r@ =~= spec_pools_program());
    r
}

pub open spec fn spec_vault_program() -> Seq<u8> {
    seq![15u8, 191, 232, 132, 109, 104, 92, 189, 198, 44, 202, 126, 4, 199, 232, 246, 141, 204, 49, 58, 179, 18, 119, 226, 224, 17, 42, 46, 192, 224, 82, 229]
}

/// The vault program that the pool's swap reads from. (`24Uqj9JCLxUeoC3hGfh5W3s9FM9uCHDS2SG3LYwBpyTi`)
pub fn vault_program() -> (r: Address)
    ensures
        r@ == spec_vault_program(),
{
    let r = Address { bytes: [15u8, 191, 232, 132, 109, 104, 92, 189, 198, 44, 202, 126, 4, 199, 232, 246, 141, 204, 49, 58, 179, 18, 119, 226, 224, 17, 42, 46, 192, 224, 82, 229] };
    assert(r@ =~= spec_vault_program());
    r
}

pub open spec fn spec_wrapped_native_mint() -> Seq<u8> {
    seq![6u8, 155, 136, 87, 254, 171, 129, 132, 251, 104, 127, 99, 70, 24, 192, 53, 218, 196, 57, 220, 26, 235, 59, 85, 152, 160, 240, 0, 0, 0, 0, 1]
}

/// The mint of the wrapped native currency. (`So11111111111111111111111111111111111111112`)
pub fn wrapped_native_mint() -> (r: Address)
    ensures
        r@ == spec_wrapped_native_mint(),
{
    let r = Address { bytes: [6u8, 155, 136, 87, 254, 171, 129, 132, 251, 104, 127, 99, 70, 24, 192, 53, 218, 196, 57, 220, 26, 235, 59, 85, 152, 160, 240, 0, 0, 0, 0, 1] };
    assert(r@ =~= spec_wrapped_native_mint());
    r
}

pub open spec fn spec_system_program() -> Seq<u8> {
    seq![0u8, 0, 0, 0, 0, 0, 0, 0, 0, 0, 0, 0, 0, 0, 0, 0, 0, 0, 0, 0, 0, 0, 0, 0, 0, 0, 0, 0, 0, 0, 0, 0]
}

/// The system program, which moves native currency. (`11111111111111111111111111111111`)
pub fn system_program() -> (r: Address)
    ensures
        r@ == spec_system_program(),
{
    let r = Address { bytes: [0u8, 0, 0, 0, 0, 0, 0, 0, 0, 0, 0, 0, 0, 0, 0, 0, 0, 0, 0, 0, 0, 0, 0, 0, 0, 0, 0, 0, 0, 0, 0, 0] };
    assert(r@ =~= spec_system_program());
    r
}

pub open spec fn spec_token_program() -> Seq<u8> {
    seq![6u8, 221, 246, 225, 215, 101, 161, 147, 217, 203, 225, 70, 206, 235, 121, 172, 28, 180, 133, 237, 95, 91, 55, 145, 58, 140, 245, 133, 126, 255, 0, 169]
}

/// The token program. (`TokenkegQfeZyiNwAJbNbGKPFXCWuBvf9Ss623VQ5DA`)
pub fn token_program() -> (r: Address)
    ensures
        r@ == spec_token_program(),
{
    let r = Address { bytes: [6u8, 221, 246, 225, 215, 101, 161, 147, 217, 203, 225, 70, 206, 235, 121, 172, 28, 180, 133, 237, 95, 91, 55, 145, 58, 140, 245, 133, 126, 255, 0, 169] };
    assert(r@ =~= spec_token_program());
    r
}

pub open spec fn spec_compute_budget_program() -> Seq<u8> {
    seq![3u8, 6, 70, 111, 229, 33, 23, 50, 255, 236, 173, 186, 114, 195, 155, 231, 188, 140, 229, 187, 197, 247, 18, 107, 44, 67, 155, 58, 64, 0, 0, 0]
}

/// The compute-budget program. (`ComputeBudget111111111111111111111111111111`)
pub fn compute_budget_program() -> (r: Address)
    ensures
        r@ == spec_compute_budget_program(),
{
    let r = Address { bytes: [3u8, 6, 70, 111, 229, 33, 23, 50, 255, 236, 173, 186, 114, 195, 155, 231, 188, 140, 229, 187, 197, 247, 18, 107, 44, 67, 155, 58, 64, 0, 0, 0] };
    assert(r@ =~= spec_compute_budget_program());
    r
}

pub open spec fn spec_associated_token_program() -> Seq<u8> {
    seq![140u8, 151, 37, 143, 78, 36, 137, 241, 187, 61, 16, 41, 20, 142, 13, 131, 11, 90, 19, 153, 218, 255, 16, 132, 4, 142, 123, 216, 219, 233, 248, 89]
}

/// The associated-token-account program. (`ATokenGPvbdGVxr1b2hvZbsiqW5xWH25efTNsLJA8knL`)
pub fn associated_token_program() -> (r: Address)
    ensures
        r@ == spec_associated_token_program(),
{
    let r = Address { bytes: [140u8, 151, 37, 143, 78, 36, 137, 241, 187, 61, 16, 41, 20, 142, 13, 131, 11, 90, 19, 153, 218, 255, 16, 132, 4, 142, 123, 216, 219, 233, 248, 89] };
    assert(r@ =~= spec_associated_token_program());
    r
}

pub open spec fn spec_jito_tip() -> Seq<u8> {
    seq![177u8, 78, 13, 229, 94, 159, 186, 134, 57, 110, 191, 213, 72, 207, 248, 201, 32, 17, 234, 199, 183, 91, 170, 155, 45, 156, 106, 134, 245, 161, 113, 65]
}

/// Tip recipient of the bundle relay. (`Cw8CFyM9FkoMi7K7Crf6HNQqf4uEMzpKw6QNghXLvLkY`)
pub fn jito_tip() -> (r: Address)
    ensures
        r@ == spec_jito_tip(),
{
    let r = Address { bytes: [177u8, 78, 13, 229, 94, 159, 186, 134, 57, 110, 191, 213, 72, 207, 248, 201, 32, 17, 234, 199, 183, 91, 170, 155, 45, 156, 106, 134, 245, 161, 113, 65] };
    assert(r@ =~= spec_jito_tip());
    r
}

pub open spec fn spec_bloxroute_tip() -> Seq<u8> {
    seq![245u8, 56, 111, 18, 189, 151, 85, 159, 134, 228, 110, 186, 19, 120, 123, 40, 248, 211, 194, 66, 104, 230, 185, 241, 3, 102, 126, 31, 160, 85, 40, 155]
}

/// Tip recipient of the front-running-protected relay. (`HWEoBxYs7ssKuudEjzjmpfJVX7Dvi7wescFsVx2L5yoY`)
pub fn bloxroute_tip() -> (r: Address)
    ensures
        r@ == spec_bloxroute_tip(),
{
    let r = Address { bytes: [245u8, 56, 111, 18, 189, 151, 85, 159, 134, 228, 110, 186, 19, 120, 123, 40, 248, 211, 194, 66, 104, 230, 185, 241, 3, 102, 126, 31, 160, 85, 40, 155] };
    assert(r@ =~= spec_bloxroute_tip());
    r
}

pub open spec fn spec_nextblock_tip() -> Seq<u8> {
    seq![5u8, 140, 31, 97, 169, 139, 148, 66, 188, 231, 112, 168, 39, 137, 75, 107, 120, 93, 138, 204, 221, 68, 73, 236, 240, 93, 176, 21, 1, 76, 224, 95]
}

/// Tip recipient of the base-64 relay. (`NextbLoCkVtMGcV47JzewQdvBpLqT9TxQFozQkN98pE`)
pub fn nextblock_tip() -> (r: Address)
    ensures
        r@ == spec_nextblock_tip(),
{
    let r = Address { bytes: [5u8, 140, 31, 97, 169, 139, 148, 66, 188, 231, 112, 168, 39, 137, 75, 107, 120, 93, 138, 204, 221, 68, 73, 236, 240, 93, 176, 21, 1, 76, 224, 95] };
    assert(r@ =~= spec_nextblock_tip());
    r
}

} // verus!
