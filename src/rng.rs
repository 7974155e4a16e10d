use vstd::prelude::*;

verus! {

/// Multiplier of the linear congruential step.
pub const LCG_MUL: u64 = 1103515245;

/// Increment of the linear congruential step.
pub const LCG_INC: u64 = 12345;

/// One step of the generator's state, modulo 2^64.
#[verifier::opaque]
pub open spec fn lcg_step(state: u64) -> u64 {
    ((state as int * LCG_MUL as int + LCG_INC as int) % 0x1_0000_0000_0000_0000int) as u64
}

/// The value drawn from a state that was just stepped into.
pub open spec fn lcg_output(state: u64) -> u64 {
    (state / 65536) % 32768
}

/// Deterministic pseudo-random stream, used only while a structure is generated.
pub struct SimpleRng {
    pub state: u64,
}

impl SimpleRng {
    /// Starts the stream of `seed`; the internal state is `seed + 1` (wrapping).
    pub fn new(seed: u64) -> (r: Self)
        ensures
            r.state == ((seed as int + 1) % 0x1_0000_0000_0000_0000int) as u64,
    {
        SimpleRng { state: seed.wrapping_add(1) }
    }

    /// Advances the state one step and returns the draw, always below 32768.
    pub fn next(&mut self) -> (r: u64)
        ensures
            final(self).state == lcg_step(old(self).state),
            r == lcg_output(final(self).state),
            r < 32768,
    {
        proof {
            reveal(lcg_step);
        }
        self.state = self.state.wrapping_mul(LCG_MUL).wrapping_add(LCG_INC);
        (self.state / 65536) % 32768
    }
}

} // verus!
