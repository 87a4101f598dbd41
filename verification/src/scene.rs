//! The data model of a generated scene.
//!
//! All geometry is exact: lengths on the unit interval and canvas
//! coordinates are fixed-point integers with denominator [`crate::UNIT`],
//! and a point on a spiral arm is kept as the exact rational data of the
//! curve sample rather than a rounded coordinate. A renderer turns these
//! into pixel positions; the generator never rounds.

use vstd::prelude::*;

verus! {

/// An opaque 8-bit-per-channel color.
#[derive(Clone, Copy, Debug, PartialEq, Eq, Structural)]
pub struct Color {
    pub r: u8,
    pub g: u8,
    pub b: u8,
}

/// The geometry of a drawable primitive. Stars are circles of a small
/// pixel radius; the sole rectangle is the canvas background.
#[derive(Clone, Copy, Debug, PartialEq, Eq, Structural)]
pub enum Shape {
    Circle { radius: u8 },
    Rectangle { width: u32, height: u32 },
}

/// A position on (or near) the canvas.
///
/// `At` carries fixed-point canvas coordinates: the pixel position is
/// `(x / UNIT, y / UNIT)`.
///
/// `OnSpiral` is a sample of a spiral arm, kept exactly. With
/// `v = v_num / (10 * UNIT)`, `w = w_num / (10 * UNIT)` and the curve
/// parameter `t = pi * t_num / t_den`, the pixel position is
/// `x = (v * t) * cos(w * t) + xo / UNIT`,
/// `y = (v * t) * sin(w * t) + yo / UNIT`.
/// Evaluating the trigonometry is the renderer's, inherently inexact,
/// job; the generator only fixes the rational curve data.
#[derive(Clone, Copy, Debug, PartialEq, Eq, Structural)]
pub enum Point {
    At { x: i64, y: i64 },
    OnSpiral { xo: i64, yo: i64, v_num: i64, w_num: i64, t_num: i64, t_den: i64 },
}

/// One drawable entry of the display list.
#[derive(Clone, Copy, Debug, PartialEq, Eq, Structural)]
pub struct Primitive {
    pub shape: Shape,
    pub pos: Point,
    pub color: Color,
}

/// A fixed-size canvas with its ordered display list; list order is
/// paint order.
#[derive(Clone, Debug)]
pub struct Canvas {
    pub width: u32,
    pub height: u32,
    pub list: Vec<Primitive>,
}

/// A well-formed position: direct coordinates lie on the canvas; spiral
/// data is magnitude-bounded. `t_num <= 96 * t_den` says the curve
/// parameter stays below the maximal sweep `96 * pi`, and together with
/// `|v_num| <= UNIT` (a rate of magnitude at most `0.1`) it bounds the
/// sample's distance from the spiral center by `9.6 * pi` canvas units.
pub open spec fn wf_point(p: Point) -> bool {
    match p {
        Point::At { x, y } => {
            &&& 0 <= x < crate::WIDTH * crate::UNIT
            &&& 0 <= y < crate::HEIGHT * crate::UNIT
        },
        Point::OnSpiral { xo, yo, v_num, w_num, t_num, t_den } => {
            &&& 0 <= xo < crate::WIDTH * crate::UNIT
            &&& 0 <= yo < crate::HEIGHT * crate::UNIT
            &&& -crate::UNIT <= v_num <= crate::UNIT
            &&& -crate::UNIT <= w_num <= crate::UNIT
            &&& 18 * crate::UNIT <= t_den <= 54 * crate::UNIT
            &&& 0 <= t_num <= 96 * t_den
        },
    }
}

/// A well-formed primitive: a star is a circle of radius 1 to 3 at a
/// well-formed position; the only rectangle is the full background.
pub open spec fn wf_primitive(p: Primitive) -> bool {
    match p.shape {
        Shape::Circle { radius } => 1 <= radius <= 3 && wf_point(p.pos),
        Shape::Rectangle { .. } => p == background(),
    }
}

/// The full-canvas opaque black background rectangle, always the first
/// display-list entry of a built scene.
pub open spec fn background() -> Primitive {
    Primitive {
        shape: Shape::Rectangle { width: crate::WIDTH, height: crate::HEIGHT },
        pos: Point::At { x: 0, y: 0 },
        color: Color { r: 0, g: 0, b: 0 },
    }
}

/// A well-formed canvas: fixed dimensions, a background-first display
/// list, every entry well-formed.
pub open spec fn wf_canvas(c: Canvas) -> bool {
    &&& c.width == crate::WIDTH
    &&& c.height == crate::HEIGHT
    &&& c.list@.len() >= 1
    &&& c.list@[0] == background()
    &&& forall|i: int| 0 <= i < c.list@.len() ==> wf_primitive(#[trigger] c.list@[i])
}

} // verus!
