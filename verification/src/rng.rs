//! A small deterministic pseudo-random source for hazard placement.
//!
//! The shell seeds one source per session from whatever entropy it has; tests
//! seed it with a fixed value and replay the same placement every time.

use vstd::prelude::*;

verus! {

/// A linear congruential generator. Nothing is promised of the distribution of
/// its draws beyond their range; the placement logic is proved sound for every
/// sequence of draws.
pub struct CaveRng {
    state: u64,
}

impl CaveRng {
    /// A source that will replay the same draws for the same seed.
    pub fn new(seed: u64) -> CaveRng {
        CaveRng { state: seed }
    }

    /// Advances the state and hands back the high bits of the new state.
    fn next_raw(&mut self) -> (r: u64)
        ensures
            r < 0x8000_0000,
    {
        self.state = self.state.wrapping_mul(6364136223846793005).wrapping_add(1442695040888963407);
        let high: u64 = self.state >> 33;
        proof {
            assert(forall|s: u64| (s >> 33u64) < 0x8000_0000u64) by (bit_vector);
        }
        high
    }

    /// A draw in `[0, bound)`.
    pub fn next_below(&mut self, bound: u8) -> (r: u8)
        requires
            bound >= 1,
        ensures
            r < bound,
    {
        (self.next_raw() % (bound as u64)) as u8
    }
}

} // verus!
