//! Procedural starfield scene generation.
//!
//! The library builds an ordered display list for a fixed-size canvas: a
//! black background rectangle followed by randomly placed stars. Star
//! placement, size, color and the shape of rare spiral clusters are all
//! decided here, over exact fixed-point arithmetic, from a seedable random
//! source. Rasterizing the display list to pixels is left to a rendering
//! front end.

use vstd::prelude::*;

pub mod color;
pub mod gen;
pub mod laws;
pub mod rng;
pub mod scene;

verus! {

/// Denominator of the fixed-point encoding of the unit interval: a roll
/// `r` stands for the real number `r / UNIT`, so `0 <= r < UNIT` covers
/// `[0, 1)` with 24 bits of precision.
pub const UNIT: u64 = 16777216;

/// Canvas width in pixels.
pub const WIDTH: u32 = 4000;

/// Canvas height in pixels.
pub const HEIGHT: u32 = 2000;

/// The rare brightness class: the roll, read as `r / UNIT`, lies below
/// `0.0025 = 1/400`. About one star in four hundred.
pub open spec fn rare_roll(r: u64) -> bool {
    400 * r < UNIT
}

/// The uncommon brightness class: the roll lies below `0.05 = 1/20`.
/// Every rare roll is also uncommon; the bands of the brightness classes
/// are `rare`, `uncommon && !rare`, and `!uncommon`.
pub open spec fn uncommon_roll(r: u64) -> bool {
    20 * r < UNIT
}

/// The object-kind band that yields a stretchy star: the roll lies below
/// `0.16 = 4/25` (and outside the rare band, which yields a swirl).
pub open spec fn stretchy_roll(r: u64) -> bool {
    25 * r < 4 * UNIT
}

} // verus!
