//! The genetic mixer.
//!
//! Breeding combines two parent genetic codes under a random selector mask:
//! each bit of the child is taken from the first parent where the selector
//! bit is 1 and from the second parent where it is 0. The selector itself
//! comes from the host's randomness oracle; the mixer is a pure function of
//! its three arguments.

use vstd::prelude::*;

verus! {

/// One byte of the mix: a per-bit multiplexer between `a` and `b`,
/// steered by `s`.
pub open spec fn mix_byte(s: u8, a: u8, b: u8) -> u8 {
    (s & a) | ((!s) & b)
}

/// The whole child code: `mix_byte` at every position.
pub open spec fn mixed(s: Seq<u8>, a: Seq<u8>, b: Seq<u8>) -> Seq<u8>
    recommends
        s.len() == a.len(),
        s.len() == b.len(),
{
    Seq::new(s.len(), |i: int| mix_byte(s[i], a[i], b[i]))
}

/// Combines two parent genetic codes under a selector mask: every byte of
/// the child is `(selector & parent1) | (!selector & parent2)` at that
/// position, so each bit comes from `dna1` where the selector bit is 1 and
/// from `dna2` where it is 0.
pub fn mix(selector: &[u8; 16], dna1: &[u8; 16], dna2: &[u8; 16]) -> (child: [u8; 16])
    ensures
        child@ == mixed(selector@, dna1@, dna2@),
{
    let mut child: [u8; 16] = [0u8; 16];
    let mut i: usize = 0;
    while i < 16
        invariant
            i <= 16,
            child@.len() == 16,
            forall|j: int|
                0 <= j < i ==> child@[j] == mix_byte(selector@[j], dna1@[j], dna2@[j]),
        decreases 16 - i,
    {
        child[i] = (selector[i] & dna1[i]) | ((!selector[i]) & dna2[i]);
        i = i + 1;
    }
    proof {
        assert(child@ =~= mixed(selector@, dna1@, dna2@));
    }
    child
}

} // verus!
