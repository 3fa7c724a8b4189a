//! Little-endian integers as byte sequences.
use vstd::prelude::*;

verus! {

/// The unsigned number that `b` encodes, least significant byte first.
pub open spec fn le_value(b: Seq<u8>) -> nat
    decreases b.len(),
{
    if b.len() == 0 {
        0
    } else {
        b[0] as nat + 256 * le_value(b.drop_first())
    }
}

/// The `n`-byte little-endian encoding of `v` (for `v < 256^n`).
pub open spec fn le_bytes(v: nat, n: nat) -> Seq<u8>
    decreases n,
{
    if n == 0 {
        Seq::empty()
    } else {
        seq![(v % 256) as u8] + le_bytes(v / 256, (n - 1) as nat)
    }
}

/// The eight bytes of `v`, least significant first.
pub fn u64_le(v: u64) -> (r: Vec<u8>)
    ensures
        r@ == le_bytes(v as nat, 8),
{
    let mut r: Vec<u8> = Vec::new();
    let mut x: u64 = v;
    let mut i: usize = 0;
    while i < 8
        invariant
            i <= 8,
            le_bytes(v as nat, 8) == r@ + le_bytes(x as nat, (8 - i) as nat),
        decreases 8 - i,
    {
        let ghost before = r@;
        r.push((x % 256) as u8);
        proof {
            assert(le_bytes(x as nat, (8 - i) as nat)
                == seq![(x as nat % 256) as u8] + le_bytes(x as nat / 256, (8 - i - 1) as nat));
            assert(before + (seq![(x % 256) as u8] + le_bytes(x as nat / 256, (8 - i - 1) as nat))
                =~= r@ + le_bytes(x as nat / 256, (8 - i - 1) as nat));
        }
        x = x / 256;
        i = i + 1;
    }
    r
}

/// Appends all of `b` to `out`.
pub fn extend(out: &mut Vec<u8>, b: &[u8])
    ensures
        final(out)@ == old(out)@ + b@,
{
    let mut i: usize = 0;
    while i < b.len()
        invariant
            i <= b@.len(),
            out@ == old(out)@ + b@.subrange(0, i as int),
        decreases b@.len() - i,
    {
        out.push(b[i]);
        assert(b@.subrange(0, i + 1) =~= b@.subrange(0, i as int).push(b@[i as int]));
        i = i + 1;
    }
    assert(b@.subrange(0, b@.len() as int) =~= b@);
}

} // verus!
