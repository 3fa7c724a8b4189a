//! The stream controller: watches decoded transaction updates and fires the
//! buy once, on the first pool creation it sees.
use vstd::prelude::*;
use crate::bench::Bench;
use crate::decoder::{bundle_from, decode_create, decode_outcome, AccountsForBuy};
use crate::instruction::Instruction;

verus! {

/// The dispatch that a detected pool creation calls for.
#[derive(Clone, Copy, Debug)]
pub struct BuyTrigger {
    pub recent_blockhash: [u8; 32],
    pub accounts_for_buy: AccountsForBuy,
}

/// The instruction decodes to a bundle.
pub open spec fn is_create(ix: Instruction) -> bool {
    decode_outcome(ix) == Ok::<Option<()>, crate::decoder::DecodeError>(Some(()))
}

/// `i` is the position of the first instruction that decodes to a bundle.
pub open spec fn first_create(ixs: Seq<Instruction>, i: int) -> bool {
    &&& 0 <= i < ixs.len()
    &&& is_create(ixs[i])
    &&& forall|j: int| 0 <= j < i ==> !#[trigger] is_create(ixs[j])
}

/// The one-shot state machine that watches the stream: waiting until the
/// first pool creation, then done for the rest of the run.
pub struct MeteoraController {
    pub bench: Bench,
    /// The buy has been dispatched.
    pub is_buy: bool,
}

/// `after` and `r` are what handling an update with these instructions and
/// this block hash in state `before` gives.
pub open spec fn handled(
    before: MeteoraController,
    instructions: Seq<Instruction>,
    recent_blockhash: [u8; 32],
    after: MeteoraController,
    r: Option<BuyTrigger>,
) -> bool {
    &&& after.bench == before.bench
    &&& before.is_buy ==> r is None && after.is_buy
    &&& !before.is_buy ==> (r is Some <==> exists|i: int| first_create(instructions, i))
    &&& !before.is_buy ==> after.is_buy == r is Some
    &&& r matches Some(t) ==> t.recent_blockhash == recent_blockhash && exists|i: int|
        first_create(instructions, i) && bundle_from(t.accounts_for_buy, instructions[i]@.accounts)
}

impl MeteoraController {
    pub fn new(bench: Bench) -> (r: MeteoraController)
        ensures
            !r.is_buy,
            r.bench == bench,
    {
        MeteoraController { bench, is_buy: false }
    }

    /// Handles one transaction update, given its instructions in order and its
    /// recent block hash. While waiting, the first instruction that decodes to
    /// a bundle fires the buy and ends the wait; malformed candidates are
    /// skipped. Once the buy is dispatched, updates are not decoded at all.
    pub fn transaction_handler(&mut self, instructions: &Vec<Instruction>, recent_blockhash: [u8; 32]) -> (r: Option<BuyTrigger>)
        ensures
            handled(*old(self), instructions@, recent_blockhash, *final(self), r),
    {
        if self.is_buy {
            return None;
        }
        let mut k: usize = 0;
        while k < instructions.len()
            invariant
                k <= instructions@.len(),
                !self.is_buy,
                !old(self).is_buy,
                self.bench == old(self).bench,
                forall|j: int| 0 <= j < k ==> !#[trigger] is_create(instructions@[j]),
            decreases instructions@.len() - k,
        {
            match decode_create(&instructions[k]) {
                Ok(Some(accounts_for_buy)) => {
                    self.is_buy = true;
                    assert(first_create(instructions@, k as int));
                    return Some(BuyTrigger { recent_blockhash, accounts_for_buy });
                },
                _ => {},
            }
            k = k + 1;
        }
        assert forall|i: int| !first_create(instructions@, i) by {
            if 0 <= i < instructions@.len() {
                assert(!is_create(instructions@[i]));
            }
        }
        None
    }
}

/// The buy fires once: of two successive updates that both hold a pool
/// creation, handled from the waiting state, the first fires and the second
/// does not; and after that the controller stays done.
pub proof fn lemma_fires_once(
    c0: MeteoraController,
    u1: Seq<Instruction>,
    h1: [u8; 32],
    c1: MeteoraController,
    r1: Option<BuyTrigger>,
    u2: Seq<Instruction>,
    h2: [u8; 32],
    c2: MeteoraController,
    r2: Option<BuyTrigger>,
)
    requires
        !c0.is_buy,
        exists|i: int| 0 <= i < u1.len() && is_create(u1[i]),
        handled(c0, u1, h1, c1, r1),
        handled(c1, u2, h2, c2, r2),
    ensures
        r1 is Some,
        r2 is None,
        c2.is_buy,
{
    let i = choose|i: int| 0 <= i < u1.len() && is_create(u1[i]);
    lemma_first_create_exists(u1, i);
}

/// Where some instruction decodes to a bundle, a first one does.
pub proof fn lemma_first_create_exists(ixs: Seq<Instruction>, i: int)
    requires
        0 <= i < ixs.len(),
        is_create(ixs[i]),
    ensures
        exists|f: int| first_create(ixs, f),
    decreases i,
{
    if forall|j: int| 0 <= j < i ==> !#[trigger] is_create(ixs[j]) {
        assert(first_create(ixs, i));
    } else {
        let j = choose|j: int| 0 <= j < i && is_create(ixs[j]);
        lemma_first_create_exists(ixs, j);
    }
}

} // verus!
