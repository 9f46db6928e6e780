//! The deterministic per-agent random number generator.
//!
//! A permuted congruential generator over 128-bit state. The step and output
//! permutation are given as spec functions and the executable code is proved
//! to follow them exactly, so two generators built from the same seed provably
//! produce identical streams — the agent-local half of replay determinism.
//! The constants and the seeding dance match the PCG reference values.
use vstd::prelude::*;

verus! {

/// The default stream selector, from the PCG reference implementation.
pub const DEFAULT_INC: u128 = 0x2FE0E169_FFBD06E3_5BC307BD_4D2F814F;

/// The multiplier of the linear congruential step, from the PCG reference
/// implementation.
pub const MULTIPLIER: u128 = 0x2360_ED05_1FC6_5DA4_4385_DF64_9FCC_F645;

/// One linear congruential step of the state.
pub open spec fn pcg_step_spec(state: u128, inc: u128) -> u128 {
    state.wrapping_mul(MULTIPLIER).wrapping_add(inc)
}

/// The output permutation: a xor-shift folded to 64 bits, then a rotation
/// chosen by the top bits of the state.
pub open spec fn pcg_output_spec(state: u128) -> u64 {
    let xorshifted = ((((state >> 29) ^ state) >> 58) & 0xFFFF_FFFF_FFFF_FFFFu128) as u64;
    let rot = ((state >> 122) as u32) as u64;
    if rot == 0 {
        xorshifted
    } else {
        (xorshifted >> rot) | (xorshifted << (64 - rot))
    }
}

/// The state of a generator seeded with `seed` and the default stream: the
/// reference seeding runs one step, folds the seed in, and steps again.
pub open spec fn pcg_seeded_state_spec(seed: u128) -> u128 {
    let inc = (DEFAULT_INC << 1) | 1;
    let after_first = pcg_step_spec(0, inc);
    pcg_step_spec(after_first.wrapping_add(seed), inc)
}

/// Deterministic pseudo-random generator state, owned by one agent instance
/// and seeded by the host.
pub struct RngState {
    state: u128,
    inc: u128,
}

impl RngState {
    /// The state as contracts speak of it.
    pub closed spec fn state_spec(&self) -> u128 {
        self.state
    }

    /// The stream selector as contracts speak of it.
    pub closed spec fn inc_spec(&self) -> u128 {
        self.inc
    }

    /// A generator always uses the default stream with its low bit set.
    pub open spec fn wf(&self) -> bool {
        self.inc_spec() == (DEFAULT_INC << 1) | 1
    }

    /// Builds a generator from a host-supplied seed. Two generators built
    /// from equal seeds start in equal states.
    pub fn new(seed: u128) -> (r: RngState)
        ensures
            r.wf(),
            r.state_spec() == pcg_seeded_state_spec(seed),
    {
        let inc: u128 = (DEFAULT_INC << 1) | 1;
        let mut state: u128 = 0;
        state = state.wrapping_mul(MULTIPLIER).wrapping_add(inc);
        state = state.wrapping_add(seed);
        state = state.wrapping_mul(MULTIPLIER).wrapping_add(inc);
        RngState { state, inc }
    }

    /// Draws 64 uniform bits and advances the state by exactly one step.
    #[verifier::rlimit(50)]
    pub fn rand_u64(&mut self) -> (r: u64)
        requires
            old(self).wf(),
        ensures
            final(self).wf(),
            final(self).state_spec() == pcg_step_spec(old(self).state_spec(), old(self).inc_spec()),
            r == pcg_output_spec(old(self).state_spec()),
    {
        let oldstate: u128 = self.state;
        proof {
            assert((((oldstate >> 29) ^ oldstate) >> 58) & 0xFFFF_FFFF_FFFF_FFFFu128
                < 0x1_0000_0000_0000_0000u128) by (bit_vector);
            assert((oldstate >> 122) < 64u128) by (bit_vector);
        }
        self.state = oldstate.wrapping_mul(MULTIPLIER).wrapping_add(self.inc);
        let xorshifted: u64 = ((((oldstate >> 29) ^ oldstate) >> 58) & 0xFFFF_FFFF_FFFF_FFFFu128) as u64;
        let rot: u32 = (oldstate >> 122) as u32;
        if rot == 0 {
            xorshifted
        } else {
            (xorshifted >> rot) | (xorshifted << (64 - rot))
        }
    }

    /// The value `rand_range` returns for a given draw: the draw reduced into
    /// `[low, high)`.
    pub open spec fn rand_range_value_spec(draw: u64, low: int, high: int) -> int
        recommends low < high,
    {
        low + (draw as int) % (high - low)
    }

    /// Draws a value in `[low, high)`, by one step of the generator. The
    /// width of the interval must fit the machine word.
    #[verifier::rlimit(50)]
    pub fn rand_range(&mut self, low: i64, high: i64) -> (r: i64)
        requires
            old(self).wf(),
            low < high,
            high - low <= i64::MAX,
        ensures
            final(self).wf(),
            final(self).state_spec() == pcg_step_spec(old(self).state_spec(), old(self).inc_spec()),
            r == Self::rand_range_value_spec(pcg_output_spec(old(self).state_spec()), low as int, high as int),
            low <= r < high,
    {
        let draw: u64 = self.rand_u64();
        let span: i64 = high - low;
        let offset: u64 = draw % (span as u64);
        low + (offset as i64)
    }
}

/// Determinism of the generator: equal states draw equal values and step to
/// equal states. This is definitional — the step and output are functions of
/// the state alone — and is what replay of an agent's random stream rests on.
pub proof fn lemma_rng_deterministic(a: u128, b: u128, inc_a: u128, inc_b: u128)
    requires
        a == b,
        inc_a == inc_b,
    ensures
        pcg_output_spec(a) == pcg_output_spec(b),
        pcg_step_spec(a, inc_a) == pcg_step_spec(b, inc_b),
{
}

} // verus!
