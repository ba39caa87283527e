use vstd::prelude::*;

verus! {

/// Multiplier of the 128-bit permuted congruential generator, the constant
/// fixed by the PCG reference implementation.
pub const PCG64_MULTIPLIER: u128 = 47026247687942121848144207491837523525;

/// Stream-selection increment of the PCG reference implementation, applied
/// when no explicit increment is chosen.
pub const PCG64_DEFAULT_INC: u128 = 0x2FE0E169_FFBD06E3_5BC307BD_4D2F814F;

/// Seed used by `Rand::new` when the caller does not supply one.
pub const DEFAULT_SEED: u128 = 0xda942042e4dd58b5;

/// One step of the linear congruential state update, modulo `2^128`.
pub open spec fn pcg64_advance(state: u128, inc: u128) -> u128 {
    state.wrapping_mul(PCG64_MULTIPLIER).wrapping_add(inc)
}

/// Right rotation of a 64-bit word by `r` positions, for `r < 64`.
pub open spec fn rotate_right64(x: u64, r: u64) -> u64 {
    if r == 0 {
        x
    } else {
        (x >> r) | (x << ((64 - r) as u64))
    }
}

/// The 64-bit word that one generator step emits: an xorshift of the state,
/// rotated by the state's top six bits.
pub open spec fn pcg64_output(state: u128) -> u64 {
    rotate_right64((((state >> 29) ^ state) >> 58) as u64, (state >> 122) as u64)
}

/// Generator state `(state, inc)` after seeding: the increment is forced odd,
/// then two warm-up steps mix the seed in.
pub open spec fn pcg64_init(seed: u128, increment: u128) -> (u128, u128) {
    let inc = increment.wrapping_shl(1) | 1;
    let warmed = pcg64_advance(0, inc);
    (pcg64_advance(warmed.wrapping_add(seed), inc), inc)
}

/// Pseudo-random generator over pure integer state.  Each worker of the
/// renderer owns one, so draws never contend on shared state, and a fixed
/// seed reproduces the same draw sequence on every run.
pub struct Rand {
    state: u128,
    inc: u128,
}

impl View for Rand {
    type V = (u128, u128);

    closed spec fn view(&self) -> (u128, u128) {
        (self.state, self.inc)
    }
}

impl Rand {
    /// Generator seeded with the fixed default seed.
    pub fn new() -> (rng: Rand)
        ensures
            rng@ == pcg64_init(DEFAULT_SEED, PCG64_DEFAULT_INC),
    {
        Rand::new_with_seed(DEFAULT_SEED)
    }

    /// Generator seeded with an explicit seed; equal seeds give equal draw
    /// sequences.
    pub fn new_with_seed(seed: u128) -> (rng: Rand)
        ensures
            rng@ == pcg64_init(seed, PCG64_DEFAULT_INC),
    {
        let mut rng = Rand { state: 0, inc: PCG64_DEFAULT_INC.wrapping_shl(1) | 1 };
        let _warm_up: u64 = rng.rand_u64();
        rng.state = rng.state.wrapping_add(seed);
        let _mix_in: u64 = rng.rand_u64();
        rng
    }

    /// Next draw: emits the word determined by the current state and advances
    /// the state by one congruential step.
    pub fn rand_u64(&mut self) -> (r: u64)
        ensures
            r == pcg64_output(old(self)@.0),
            final(self)@.0 == pcg64_advance(old(self)@.0, old(self)@.1),
            final(self)@.1 == old(self)@.1,
    {
        let oldstate: u128 = self.state;
        self.state = oldstate.wrapping_mul(PCG64_MULTIPLIER).wrapping_add(self.inc);
        let xorshifted: u64 = #[verifier::truncate] ((((oldstate >> 29) ^ oldstate) >> 58) as u64);
        proof {
            assert(oldstate >> 122 < 64) by (bit_vector);
        }
        let rot: u64 = (oldstate >> 122) as u64;
        if rot == 0 {
            xorshifted
        } else {
            (xorshifted >> rot) | (xorshifted << (64 - rot))
        }
    }
}

} // verus!
