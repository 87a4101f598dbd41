//! Seedable random source for scene generation.
//!
//! Every random decision of the generator is drawn from [`Rng`], a small
//! xorshift generator with a fully specified transition function. A scene
//! built from a given state is therefore a mathematical function of that
//! state, which is what makes fixed-seed determinism provable. Fresh
//! entropy for unseeded runs comes from the `rand` crate.

use vstd::prelude::*;

verus! {

/// State the generator falls back to when it is seeded with zero, which
/// the xorshift transition would otherwise map to itself forever.
pub const FALLBACK_SEED: u64 = 0x9E3779B97F4A7C15;

/// The xorshift transition: the state that follows `s`.
pub open spec fn rng_step(s: u64) -> u64 {
    let a = s ^ (s << 13);
    let b = a ^ (a >> 7);
    b ^ (b << 17)
}

/// The output scrambler: the state times an odd constant, truncated to
/// 64 bits. The transition alone leaves the high bits of small states
/// poorly stirred; every value handed out is scrambled first.
pub open spec fn mix64(x: u64) -> u64 {
    ((x * 2685821657736338717) % 0x1_0000_0000_0000_0000) as u64
}

/// The value drawn from state `s`: the scrambled successor state.
pub open spec fn draw_at(s: u64) -> u64 {
    mix64(rng_step(s))
}

/// The unit-interval roll drawn from state `s`: the top 24 bits of the
/// drawn value, standing for `unit_roll_at(s) / UNIT` in `[0, 1)`.
pub open spec fn unit_roll_at(s: u64) -> u64 {
    draw_at(s) >> 40
}

/// The byte drawn from state `s`.
pub open spec fn byte_at(s: u64) -> u8 {
    ((draw_at(s) >> 32) & 0xff) as u8
}

/// The coin flip drawn from state `s`; `true` means a negative sign.
pub open spec fn sign_at(s: u64) -> bool {
    draw_at(s) & 1 == 1
}

/// Relies on rand::random::<u64>: draws 64 bits from the thread-local
/// generator of the `rand` crate. Nothing can be promised of the value.
#[verifier::external_body]
fn entropy_u64() -> u64 {
    rand::random::<u64>()
}

/// A seedable pseudo-random source. All draws of the generation core come
/// from one of these, so a scene is a function of the starting state.
pub struct Rng {
    pub state: u64,
}

impl Rng {
    /// A source with a caller-chosen seed; equal seeds give equal draw
    /// sequences. Seed zero is replaced, since the transition fixes it.
    pub fn seeded(seed: u64) -> (r: Rng)
        ensures
            r.state == if seed == 0 { FALLBACK_SEED } else { seed },
    {
        if seed == 0 {
            Rng { state: FALLBACK_SEED }
        } else {
            Rng { state: seed }
        }
    }

    /// A source seeded from the system's entropy.
    pub fn from_entropy() -> (r: Rng)
    {
        Rng::seeded(entropy_u64())
    }

    /// Advances the state once and hands out the scrambled draw.
    pub fn next_u64(&mut self) -> (r: u64)
        ensures
            final(self).state == rng_step(old(self).state),
            r == draw_at(old(self).state),
    {
        let s = self.state;
        let a = s ^ (s << 13u64);
        let b = a ^ (a >> 7u64);
        let c = b ^ (b << 17u64);
        self.state = c;
        proof {
            assert((c as int) * 2685821657736338717 < 0x1_0000_0000_0000_0000_0000_0000_0000_0000)
                by (nonlinear_arith)
                requires
                    c <= 0xFFFF_FFFF_FFFF_FFFF,
            ;
        }
        let wide: u128 = (c as u128) * 2685821657736338717u128;
        let out: u64 = #[verifier::truncate] (wide as u64);
        proof {
            assert(wide == (c as int) * 2685821657736338717);
            assert(wide as u64 == wide % 0x1_0000_0000_0000_0000) by (bit_vector);
            assert(out == mix64(c));
        }
        out
    }

    /// Draws a unit-interval roll: a value below [`crate::UNIT`] standing
    /// for a real in `[0, 1)`.
    pub fn next_roll(&mut self) -> (r: u64)
        ensures
            final(self).state == rng_step(old(self).state),
            r == unit_roll_at(old(self).state),
            r < crate::UNIT,
    {
        let x = self.next_u64();
        let r = x >> 40u64;
        proof {
            assert(x >> 40u64 < 0x1000000) by (bit_vector);
        }
        r
    }

    /// Draws one byte.
    pub fn next_byte(&mut self) -> (r: u8)
        ensures
            final(self).state == rng_step(old(self).state),
            r == byte_at(old(self).state),
    {
        let x = self.next_u64();
        let low = (x >> 32u64) & 0xff;
        proof {
            assert((x >> 32u64) & 0xff < 256) by (bit_vector);
        }
        low as u8
    }

    /// Draws a coin flip; `true` means a negative sign.
    pub fn next_sign(&mut self) -> (r: bool)
        ensures
            final(self).state == rng_step(old(self).state),
            r == sign_at(old(self).state),
    {
        let x = self.next_u64();
        x & 1 == 1
    }
}

} // verus!
