//! Star color selection, biased toward warm, bright tones.
//!
//! A color is picked from a brightness roll on the unit interval: the
//! red channel is always raised to at least 210, and the green and blue
//! channels depend on the roll's brightness class. The roll may be
//! supplied by the caller (so that star size and brightness share one
//! rarity class) or drawn fresh.

use vstd::prelude::*;

use crate::rng::Rng;
use crate::rng::rng_step;
use crate::rng::unit_roll_at;
use crate::rng::byte_at;
use crate::scene::Color;

verus! {

/// A byte raised to a floor: `raised(b, f) = max(b, f)`.
pub open spec fn raised(b: u8, floor: u8) -> u8 {
    if b < floor {
        floor
    } else {
        b
    }
}

/// The brightness roll a color drawn at state `s` is based on: the one
/// supplied, or else the one drawn first.
pub open spec fn color_roll(s: u64, given: Option<u64>) -> u64 {
    match given {
        Option::Some(r) => r,
        Option::None => unit_roll_at(s),
    }
}

/// The color picked at state `s` with the optional supplied roll, paired
/// with the state after all draws. Green and blue are decided first (two
/// raised byte draws, or the fixed blue-white pair), then red is a byte
/// draw raised to 210.
pub open spec fn spec_star_color(s: u64, given: Option<u64>) -> (Color, u64) {
    let r = color_roll(s, given);
    let s0 = match given {
        Option::Some(_) => s,
        Option::None => rng_step(s),
    };
    if crate::rare_roll(r) {
        let g = raised(byte_at(s0), 215);
        let b = raised(byte_at(rng_step(s0)), 215);
        let s1 = rng_step(rng_step(s0));
        (Color { r: raised(byte_at(s1), 210), g: g, b: b }, rng_step(s1))
    } else if crate::uncommon_roll(r) {
        (Color { r: raised(byte_at(s0), 210), g: 235, b: 255 }, rng_step(s0))
    } else {
        let g = raised(byte_at(s0), 245);
        let b = raised(byte_at(rng_step(s0)), 245);
        let s1 = rng_step(rng_step(s0));
        (Color { r: raised(byte_at(s1), 210), g: g, b: b }, rng_step(s1))
    }
}

/// Picks a star color from the supplied brightness roll, or from a fresh
/// one if none is given.
///
/// The last three clauses state the color-bias invariant: red is at
/// least 210 for every star, and green and blue follow the brightness
/// class of the roll - at least 215 each in the rare band, exactly
/// `(235, 255)` in the uncommon band, at least 245 each otherwise.
pub fn star_color(rng: &mut Rng, given: Option<u64>) -> (c: Color)
    requires
        match given {
            Option::Some(r) => r < crate::UNIT,
            Option::None => true,
        },
    ensures
        c == spec_star_color(old(rng).state, given).0,
        final(rng).state == spec_star_color(old(rng).state, given).1,
        c.r >= 210,
        crate::rare_roll(color_roll(old(rng).state, given)) ==> c.g >= 215 && c.b >= 215,
        !crate::rare_roll(color_roll(old(rng).state, given))
            && crate::uncommon_roll(color_roll(old(rng).state, given)) ==> c.g == 235 && c.b
            == 255,
        !crate::uncommon_roll(color_roll(old(rng).state, given)) ==> c.g >= 245 && c.b >= 245,
{
    let r = match given {
        Option::Some(r) => r,
        Option::None => rng.next_roll(),
    };
    let (g, b) = if 400 * r < crate::UNIT {
        let g = raise(rng.next_byte(), 215);
        let b = raise(rng.next_byte(), 215);
        (g, b)
    } else if 20 * r < crate::UNIT {
        (235u8, 255u8)
    } else {
        let g = raise(rng.next_byte(), 245);
        let b = raise(rng.next_byte(), 245);
        (g, b)
    };
    let red = raise(rng.next_byte(), 210);
    Color { r: red, g: g, b: b }
}

/// Raises a byte to a floor.
fn raise(b: u8, floor: u8) -> (r: u8)
    ensures
        r == raised(b, floor),
{
    if b < floor {
        floor
    } else {
        b
    }
}

} // verus!
