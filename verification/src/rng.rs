//! Seeded linear congruential generator: deterministic random numbers for
//! game logic, with no outside dependency.

use vstd::prelude::*;

verus! {

/// Multiplier of the generator (Knuth's MMIX constant).
pub const LCG_MULTIPLIER: u64 = 6_364_136_223_846_793_005;

/// The state that follows `state`: `state * LCG_MULTIPLIER + 1` modulo 2^64.
pub open spec fn lcg_step(state: u64) -> u64 {
    ((state as nat * LCG_MULTIPLIER as nat + 1) % 0x1_0000_0000_0000_0000) as u64
}

/// The value drawn from a state: its top 31 bits.
pub open spec fn lcg_output(state: u64) -> u32 {
    (state >> 33u64) as u32
}

proof fn lemma_step_by_wrapping(state: u64, product: u64, next: u64)
    requires
        product as int == (state as int * LCG_MULTIPLIER as int) % 0x1_0000_0000_0000_0000int,
        next as int == (product as int + 1) % 0x1_0000_0000_0000_0000int,
    ensures
        next == lcg_step(state),
{
    let x: int = state as int * LCG_MULTIPLIER as int;
    let m: int = 0x1_0000_0000_0000_0000;
    vstd::arithmetic::div_mod::lemma_add_mod_noop(x, 1, m);
    assert(1int % m == 1);
}

/// A simple linear congruential generator for deterministic random numbers.
pub struct Lcg {
    state: u64,
}

impl Lcg {
    /// The generator's current state.
    pub closed spec fn state(&self) -> u64 {
        self.state
    }

    /// A generator seeded with `seed`.
    pub fn new(seed: u64) -> (r: Self)
        ensures
            r.state() == seed,
    {
        Self { state: seed }
    }

    /// Advance the state and return the next 31-bit value.
    pub fn next_u32(&mut self) -> (r: u32)
        ensures
            final(self).state() == lcg_step(old(self).state()),
            r == lcg_output(final(self).state()),
            r < 0x8000_0000,
    {
        let product = self.state.wrapping_mul(LCG_MULTIPLIER);
        let next = product.wrapping_add(1);
        assert(next as int == (product as int + 1) % 0x1_0000_0000_0000_0000int);
        proof {
            lemma_step_by_wrapping(self.state, product, next);
        }
        self.state = next;
        let shifted = next >> 33u64;
        assert(shifted < 0x8000_0000) by (bit_vector)
            requires shifted == next >> 33u64;
        shifted as u32
    }
}

} // verus!
