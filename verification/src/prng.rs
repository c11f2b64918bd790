//! A deterministic pseudo-random generator (SplitMix64): the same seed always gives
//! the same sequence of sampled poses.
use vstd::prelude::*;

verus! {

/// The increment of the generator's state.
pub const GOLDEN_GAMMA: u64 = 0x9E37_79B9_7F4A_7C15;

/// The first multiplier of the output mix.
pub const MIX_1: u64 = 0xBF58_476D_1CE4_E5B9;

/// The second multiplier of the output mix.
pub const MIX_2: u64 = 0x94D0_49BB_1331_11EB;

/// `x` reduced modulo 2^64.
pub open spec fn mod64(x: int) -> u64 {
    (x % 0x1_0000_0000_0000_0000) as u64
}

/// The state after one step.
pub open spec fn advanced(state: u64) -> u64 {
    mod64(state + GOLDEN_GAMMA)
}

/// The output drawn from a state that has just been advanced.
pub open spec fn mixed(s: u64) -> u64 {
    let z1 = mod64((s ^ (s >> 30u64)) * MIX_1);
    let z2 = mod64((z1 ^ (z1 >> 27u64)) * MIX_2);
    z2 ^ (z2 >> 31u64)
}

/// A SplitMix64 generator; the field is its state.
#[derive(Clone, Copy, Debug, PartialEq, Eq, Structural)]
pub struct SplitMix64(pub u64);

impl SplitMix64 {
    /// Advances the state by the golden gamma and returns the mix of the new state.
    pub fn next_u64(&mut self) -> (r: u64)
        ensures
            final(self).0 == advanced(old(self).0),
            r == mixed(final(self).0),
    {
        self.0 = self.0.wrapping_add(GOLDEN_GAMMA);
        let mut z = self.0;
        z = (z ^ (z >> 30)).wrapping_mul(MIX_1);
        z = (z ^ (z >> 27)).wrapping_mul(MIX_2);
        z ^ (z >> 31)
    }

    /// The next output reduced below `bound`.
    pub fn next_below(&mut self, bound: usize) -> (r: usize)
        requires
            bound > 0,
        ensures
            final(self).0 == advanced(old(self).0),
            r as int == mixed(final(self).0) as int % bound as int,
            r < bound,
    {
        let x = self.next_u64();
        (x % bound as u64) as usize
    }
}

} // verus!
