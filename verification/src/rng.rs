//! Deterministic pseudo-random stream.
//!
//! Every stochastic choice in the renderer (lens jitter, shutter time,
//! scatter directions, axis picks in the hierarchy builder, the Perlin
//! tables) draws from an explicit handle of this type, threaded through the
//! calls that need randomness.  The next state and output are a pure
//! function of the current state, so a fixed seed fixes the whole stream.

use vstd::prelude::*;

verus! {

/// Seed used in place of zero, which the xorshift step would never leave.
pub const FALLBACK_SEED: u64 = 0x9E3779B97F4A7C15;

/// One xorshift step: the successor state of `s`.
pub open spec fn mix(s: u64) -> u64 {
    let a = s ^ (s << 13u64);
    let b = a ^ (a >> 7u64);
    b ^ (b << 17u64)
}

/// The state a fresh stream starts from for a given seed.
pub open spec fn seed_state(seed: u64) -> u64 {
    if seed == 0 {
        FALLBACK_SEED
    } else {
        seed
    }
}

/// A deterministic pseudo-random stream (xorshift, 64-bit state).
pub struct Rng {
    state: u64,
}

impl Rng {
    /// The state is never zero: xorshift maps zero to zero and would stall.
    pub closed spec fn inv(self) -> bool {
        self.state != 0
    }

    /// The current state of the stream.
    pub closed spec fn raw(self) -> u64 {
        self.state
    }

    /// Start a stream from a seed.  Equal seeds give equal streams.
    pub fn new(seed: u64) -> (r: Rng)
        ensures
            r.inv(),
            r.raw() == seed_state(seed),
    {
        if seed == 0 {
            Rng { state: FALLBACK_SEED }
        } else {
            Rng { state: seed }
        }
    }

    /// Advance the stream and return the new state as the next draw.
    pub fn next(&mut self) -> (r: u64)
        requires
            old(self).inv(),
        ensures
            final(self).inv(),
            final(self).raw() == mix(old(self).raw()),
            r == final(self).raw(),
    {
        proof {
            lemma_mix_nonzero(self.state);
        }
        let mut s: u64 = self.state;
        s = s ^ (s << 13u64);
        s = s ^ (s >> 7u64);
        s = s ^ (s << 17u64);
        self.state = s;
        s
    }

    /// Draw a value below `n`, advancing the stream by one step.
    pub fn below(&mut self, n: u32) -> (r: u32)
        requires
            old(self).inv(),
            n > 0,
        ensures
            final(self).inv(),
            final(self).raw() == mix(old(self).raw()),
            r == mix(old(self).raw()) % (n as u64),
            r < n,
    {
        let x: u64 = self.next();
        (x % (n as u64)) as u32
    }
}

/// The xorshift step never maps a nonzero state to zero.
proof fn lemma_mix_nonzero(s: u64)
    requires
        s != 0,
    ensures
        mix(s) != 0,
{
    let a = s ^ (s << 13u64);
    let b = a ^ (a >> 7u64);
    assert(a != 0) by (bit_vector)
        requires
            s != 0 && a == s ^ (s << 13u64),
    ;
    assert(b != 0) by (bit_vector)
        requires
            a != 0 && b == a ^ (a >> 7u64),
    ;
    assert(b ^ (b << 17u64) != 0) by (bit_vector)
        requires
            b != 0,
    ;
}

} // verus!
