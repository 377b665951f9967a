//! A xorshift pseudo-random generator.

use vstd::prelude::*;

verus! {

/// One xorshift step (shifts 13, 17, 5) on a 64-bit state.
pub open spec fn xorshift(x: u64) -> u64 {
    let a = x ^ (x << 13u64);
    let b = a ^ (a >> 17u64);
    b ^ (b << 5u64)
}

/// A xorshift generator over 64 bits of state.
pub struct Rand(u64);

impl Rand {
    /// The current state.
    pub closed spec fn state(&self) -> u64 {
        self.0
    }

    /// A generator seeded with `seed`.
    pub fn new(seed: u64) -> (r: Rand)
        ensures
            r.state() == seed,
    {
        Rand(seed)
    }

    /// Advances the state by one xorshift step and returns the new state.
    pub fn sample(&mut self) -> (r: u64)
        ensures
            r == xorshift(old(self).state()),
            final(self).state() == r,
    {
        let mut x = self.0;
        x = x ^ (x << 13);
        x = x ^ (x >> 17);
        x = x ^ (x << 5);
        self.0 = x;
        x
    }
}

} // verus!
