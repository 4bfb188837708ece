use vstd::prelude::*;

verus! {

/// Largest value that [`Rnd::fastrand`] returns.
pub const FAST_RAND_MAX: i32 = 0x7FFF;

/// Multiplier of the linear-congruential step.
pub const LCG_MULTIPLIER: i32 = 214013;

/// Increment of the linear-congruential step.
pub const LCG_INCREMENT: i32 = 2531011;

/// State that follows `seed` in the stream: `seed * 214013 + 2531011`,
/// wrapped to 32 bits.
pub open spec fn lcg_step(seed: i32) -> i32 {
    seed.wrapping_mul(LCG_MULTIPLIER).wrapping_add(LCG_INCREMENT)
}

/// Value drawn from the state `seed`: its bits 16 to 30.
pub open spec fn lcg_output(seed: i32) -> i32 {
    (seed >> 16u32) & FAST_RAND_MAX
}

/// A linear-congruential pseudo-random stream. Within one stream the values
/// depend only on the seed and on the number of draws made so far.
pub struct Rnd {
    seed: i32,
}

impl Rnd {
    /// The current state of the stream.
    pub closed spec fn state(&self) -> i32 {
        self.seed
    }

    /// A stream that starts from `seed`.
    pub fn from_seed(seed: i32) -> (r: Rnd)
        ensures
            r.state() == seed,
    {
        Rnd { seed }
    }

    /// Advances the stream by one step and returns the new value, in
    /// `0..=FAST_RAND_MAX`.
    pub fn fastrand(&mut self) -> (r: i32)
        ensures
            final(self).state() == lcg_step(old(self).state()),
            r == lcg_output(final(self).state()),
            0 <= r <= FAST_RAND_MAX,
    {
        let seed = self.seed.wrapping_mul(LCG_MULTIPLIER).wrapping_add(LCG_INCREMENT);
        self.seed = seed;
        let r = (seed >> 16u32) & FAST_RAND_MAX;
        assert(0 <= ((seed >> 16u32) & 0x7FFFi32) <= 0x7FFFi32) by (bit_vector);
        r
    }
}

} // verus!
