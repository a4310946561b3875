//! The simulation's source of pseudo-random numbers: a 32-bit xorshift
//! generator. A run is reproducible from its seed.
use crate::fixed::Fixed;
use vstd::prelude::*;

verus! {

/// One step of the xorshift generator on 32 bits.
pub open spec fn xorshift32(s: u32) -> u32 {
    let a = s ^ (s << 13u32);
    let b = a ^ (a >> 17u32);
    b ^ (b << 5u32)
}

/// The state `s` as a fraction of the largest state, in raw units.
pub open spec fn unit_raw(s: u32) -> int {
    (s * 1_000_000) / 4_294_967_295
}

/// A seedable generator of numbers between 0 and 1.
#[derive(Clone, Copy, PartialEq, Eq, Structural, Debug)]
pub struct Rng {
    /// The state: the seed at first, then the last number generated.
    pub seed: u32,
}

impl Rng {
    /// A generator that starts from `seed`. The seed 0 yields 0 forever.
    pub fn new(seed: u32) -> (r: Rng)
        ensures
            r.seed == seed,
    {
        Rng { seed }
    }

    /// The generator after one draw.
    pub open spec fn advanced(self) -> Rng {
        Rng { seed: xorshift32(self.seed) }
    }

    /// The number that the next draw returns.
    pub open spec fn peek(self) -> Fixed {
        Fixed { raw: unit_raw(xorshift32(self.seed)) as i64 }
    }

    /// Draws the next number: the new state as a fraction of the largest state,
    /// so between 0 and 1, both included.
    pub fn next_unit(&mut self) -> (r: Fixed)
        ensures
            *final(self) == old(self).advanced(),
            r == old(self).peek(),
            0 <= r.raw <= 1_000_000,
    {
        let mut x: u32 = self.seed;
        x = x ^ (x << 13u32);
        x = x ^ (x >> 17u32);
        x = x ^ (x << 5u32);
        self.seed = x;
        let wide: u64 = (x as u64) * 1_000_000u64;
        Fixed { raw: (wide / 4_294_967_295u64) as i64 }
    }
}

/// Restarts `rng` from `seed`.
pub fn set_seed(rng: &mut Rng, seed: u32)
    ensures
        final(rng).seed == seed,
{
    rng.seed = seed;
}

/// A draw lies between 0 and 1.
pub proof fn lemma_peek_range(rng: Rng)
    ensures
        0 <= rng.peek().raw <= 1_000_000,
{
}

} // verus!
