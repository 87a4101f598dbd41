//! The object generator: plain stars, stretchy stars, swirl clusters,
//! and the scene builder that accumulates them into a display list.
//!
//! Each generator is mirrored by a spec function from the random state
//! to the produced primitives and the state after all draws, so a built
//! scene is pinned exactly by the starting state.

use vstd::prelude::*;

use crate::rng::Rng;
use crate::rng::rng_step;
use crate::rng::unit_roll_at;
use crate::color::spec_star_color;
use crate::color::star_color;
use crate::scene::Color;
use crate::scene::Point;
use crate::scene::Primitive;
use crate::scene::Shape;
use crate::scene::wf_point;
use crate::scene::wf_primitive;

verus! {

/// The fixed-point x coordinate a roll places a star at:
/// `(r / UNIT) * WIDTH` pixels, kept exactly over denominator `UNIT`.
pub open spec fn grid_x(r: u64) -> i64 {
    (r * crate::WIDTH) as i64
}

/// The fixed-point y coordinate a roll places a star at.
pub open spec fn grid_y(r: u64) -> i64 {
    (r * crate::HEIGHT) as i64
}

/// The star radius a rarity roll selects: 3 pixels in the rare band,
/// 2 in the uncommon band, 1 otherwise. Radius and brightness share the
/// roll, so bigger stars are also the brighter ones.
pub open spec fn radius_of(r: u64) -> u8 {
    if crate::rare_roll(r) {
        3
    } else if crate::uncommon_roll(r) {
        2
    } else {
        1
    }
}

/// Scales a unit-interval roll to a fixed-point canvas coordinate:
/// `(r / UNIT) * d` pixels, kept exactly over denominator `UNIT`. The
/// result always lies on the canvas side of length `d`.
fn grid_coord(r: u64, d: u32) -> (x: i64)
    requires
        r < crate::UNIT,
        0 < d <= 4000,
    ensures
        x == (r * d) as i64,
        0 <= x < d * crate::UNIT,
{
    proof {
        assert(crate::UNIT == 16777216);
        assert(r * (d as u64) < (d as u64) * crate::UNIT && (d as u64) * crate::UNIT <= 4000
            * crate::UNIT) by (nonlinear_arith)
            requires
                r < crate::UNIT,
                0 < (d as u64) <= 4000,
        ;
    }
    (r * (d as u64)) as i64
}

/// The rarity roll a star generated at state `s` uses: drawn after the
/// two position rolls when no position is supplied.
pub open spec fn star_roll(s: u64, pos: Option<Point>) -> u64 {
    match pos {
        Option::Some(_) => unit_roll_at(s),
        Option::None => unit_roll_at(rng_step(rng_step(s))),
    }
}

/// The plain star generated at state `s`, at the supplied position or at
/// a freshly rolled one, paired with the state after all draws.
pub open spec fn spec_star(s: u64, pos: Option<Point>) -> (Primitive, u64) {
    let p = match pos {
        Option::Some(pt) => pt,
        Option::None => Point::At {
            x: grid_x(unit_roll_at(s)),
            y: grid_y(unit_roll_at(rng_step(s))),
        },
    };
    let s0 = match pos {
        Option::Some(_) => s,
        Option::None => rng_step(rng_step(s)),
    };
    let r2 = unit_roll_at(s0);
    let cpair = spec_star_color(rng_step(s0), Option::Some(r2));
    (Primitive { shape: Shape::Circle { radius: radius_of(r2) }, pos: p, color: cpair.0 },
    cpair.1)
}

/// The stretchy star generated at state `s`: presently a single 1-pixel
/// circle at a fresh position with a fresh-rolled color, kept as its own
/// path so the object-kind bands stay as designed.
pub open spec fn spec_stretchy(s: u64) -> (Primitive, u64) {
    let x = grid_x(unit_roll_at(s));
    let y = grid_y(unit_roll_at(rng_step(s)));
    let cpair = spec_star_color(rng_step(rng_step(s)), Option::None);
    (Primitive { shape: Shape::Circle { radius: 1 }, pos: Point::At { x: x, y: y }, color: cpair.0 },
    cpair.1)
}

/// Generates one plain star: at `pos` if supplied, else at a position
/// rolled uniformly over the canvas. A fresh rarity roll selects the
/// radius and is passed on as the brightness roll, so `radius_of` ties
/// the radius to the same rarity band as the color.
pub fn star(rng: &mut Rng, pos: Option<Point>) -> (p: Primitive)
    requires
        match pos {
            Option::Some(pt) => wf_point(pt),
            Option::None => true,
        },
    ensures
        p == spec_star(old(rng).state, pos).0,
        final(rng).state == spec_star(old(rng).state, pos).1,
        p.shape == (Shape::Circle { radius: radius_of(star_roll(old(rng).state, pos)) }),
        wf_primitive(p),
{
    let p = match pos {
        Option::Some(pt) => pt,
        Option::None => {
            let rx = rng.next_roll();
            let ry = rng.next_roll();
            Point::At { x: grid_coord(rx, crate::WIDTH), y: grid_coord(ry, crate::HEIGHT) }
        },
    };
    let r2 = rng.next_roll();
    let radius = if 400 * r2 < crate::UNIT {
        3
    } else if 20 * r2 < crate::UNIT {
        2
    } else {
        1
    };
    let color = star_color(rng, Option::Some(r2));
    Primitive { shape: Shape::Circle { radius: radius }, pos: p, color: color }
}

/// Generates one stretchy star. The elongated-curve rendering is a
/// deferred enhancement; the live behavior is a 1-pixel star at a fresh
/// position, with a fresh brightness roll drawn inside the color pick.
#[verifier::rlimit(50)]
pub fn stretchy_star(rng: &mut Rng) -> (p: Primitive)
    ensures
        p == spec_stretchy(old(rng).state).0,
        final(rng).state == spec_stretchy(old(rng).state).1,
        wf_primitive(p),
{
    let rx = rng.next_roll();
    let ry = rng.next_roll();
    let pos = Point::At { x: grid_coord(rx, crate::WIDTH), y: grid_coord(ry, crate::HEIGHT) };
    let color = star_color(rng, Option::None);
    Primitive { shape: Shape::Circle { radius: 1 }, pos: pos, color: color }
}

/// The signed spiral rate a roll and a coin flip select, over
/// denominator `10 * UNIT`: the magnitude is `min(roll * 2.9, 0.1)`,
/// i.e. `min(29 * r, UNIT)` tenths of a unit, so it never exceeds `0.1`.
pub open spec fn rate_mag(r: u64) -> i64 {
    if 29 * r < crate::UNIT {
        (29 * r) as i64
    } else {
        crate::UNIT as i64
    }
}

/// The rate with its independently flipped sign applied.
pub open spec fn rate_of(r: u64, neg: bool) -> i64 {
    if neg {
        (-rate_mag(r)) as i64
    } else {
        rate_mag(r)
    }
}

/// The parameters a swirl drawn at state `s` uses, in draw order:
/// center `(xo, yo)`, signed rates `v` and `w`, total sweep numerator
/// `u_num` (the sweep is `pi * u_num / UNIT`, below `96 * pi`), the step
/// count, and the state after all parameter draws.
pub open spec fn swirl_params(s: u64) -> (i64, i64, i64, i64, i64, u64, u64) {
    let s1 = rng_step(s);
    let s2 = rng_step(s1);
    let s3 = rng_step(s2);
    let s4 = rng_step(s3);
    let s5 = rng_step(s4);
    let s6 = rng_step(s5);
    let s7 = rng_step(s6);
    let s8 = rng_step(s7);
    let xo = grid_x(unit_roll_at(s));
    let yo = grid_y(unit_roll_at(s1));
    let v = rate_of(unit_roll_at(s2), crate::rng::sign_at(s3));
    let w = rate_of(unit_roll_at(s4), crate::rng::sign_at(s5));
    let u_num = (96 * unit_roll_at(s6)) as i64;
    let steps = (18 + crate::rng::draw_at(s7) % 37) as u64;
    (xo, yo, v, w, u_num, steps, s8)
}

/// The step count a swirl drawn at state `s` uses, in `[18, 54]`.
pub open spec fn swirl_steps(s: u64) -> u64 {
    swirl_params(s).5
}

/// The first `k` stars of a spiral arm around `(xo, yo)` with rates
/// `v, w`, sweep numerator `u_num` and the given step count, generated
/// from state `s`; paired with the state after all draws. Star `i` sits
/// at curve parameter `t_i = pi * (i * u_num) / (steps * UNIT)`, the
/// exact value of `i * (sweep / steps)`.
pub open spec fn spec_arm_prefix(
    xo: i64,
    yo: i64,
    v: i64,
    w: i64,
    u_num: i64,
    steps: u64,
    k: int,
    s: u64,
) -> (Seq<Primitive>, u64)
    decreases k,
{
    if k <= 0 {
        (Seq::<Primitive>::empty(), s)
    } else {
        let prev = spec_arm_prefix(xo, yo, v, w, u_num, steps, k - 1, s);
        let pt = Point::OnSpiral {
            xo: xo,
            yo: yo,
            v_num: v,
            w_num: w,
            t_num: ((k - 1) * u_num) as i64,
            t_den: (steps * crate::UNIT) as i64,
        };
        let st = spec_star(prev.1, Option::Some(pt));
        (prev.0.push(st.0), st.1)
    }
}

/// The swirl cluster generated at state `s`: its full arm of stars,
/// paired with the state after all draws.
pub open spec fn spec_swirl(s: u64) -> (Seq<Primitive>, u64) {
    let p = swirl_params(s);
    spec_arm_prefix(p.0, p.1, p.2, p.3, p.4, p.5, p.5 as int, p.6)
}

/// Generates the stars of one spiral arm from its parameters: one star
/// per step, at the exact curve samples `t_i = i * sweep / steps` for
/// `i` in `[0, steps)`, where the sweep is `pi * u_num / UNIT`.
///
/// Every emitted star carries well-formed spiral data, which bounds its
/// distance from the center by `9.6 * pi` canvas units (rates of
/// magnitude at most `0.1` over a parameter below `96 * pi`).
pub fn swirl_arm(
    rng: &mut Rng,
    xo: i64,
    yo: i64,
    v: i64,
    w: i64,
    u_num: i64,
    steps: u64,
) -> (out: Vec<Primitive>)
    requires
        0 <= xo < crate::WIDTH * crate::UNIT,
        0 <= yo < crate::HEIGHT * crate::UNIT,
        -crate::UNIT <= v <= crate::UNIT,
        -crate::UNIT <= w <= crate::UNIT,
        0 <= u_num <= 96 * (crate::UNIT - 1),
        18 <= steps <= 54,
    ensures
        out@ == spec_arm_prefix(xo, yo, v, w, u_num, steps, steps as int, old(rng).state).0,
        final(rng).state == spec_arm_prefix(
            xo,
            yo,
            v,
            w,
            u_num,
            steps,
            steps as int,
            old(rng).state,
        ).1,
        out@.len() == steps,
        forall|i: int| 0 <= i < out@.len() ==> wf_primitive(#[trigger] out@[i]),
{
    let ghost s0 = rng.state;
    let t_den: i64 = (steps * crate::UNIT) as i64;
    let mut out: Vec<Primitive> = Vec::new();
    let mut i: u64 = 0;
    while i < steps
        invariant
            0 <= i <= steps,
            18 <= steps <= 54,
            0 <= xo < crate::WIDTH * crate::UNIT,
            0 <= yo < crate::HEIGHT * crate::UNIT,
            -crate::UNIT <= v <= crate::UNIT,
            -crate::UNIT <= w <= crate::UNIT,
            0 <= u_num <= 96 * (crate::UNIT - 1),
            t_den == steps * crate::UNIT,
            out@ == spec_arm_prefix(xo, yo, v, w, u_num, steps, i as int, s0).0,
            rng.state == spec_arm_prefix(xo, yo, v, w, u_num, steps, i as int, s0).1,
            out@.len() == i,
            forall|j: int| 0 <= j < out@.len() ==> wf_primitive(#[trigger] out@[j]),
        decreases steps - i,
    {
        proof {
            assert((i as int) * u_num <= 53 * (96 * (crate::UNIT - 1)) && 0 <= (i as int)
                * u_num) by (nonlinear_arith)
                requires
                    0 <= i <= 53,
                    0 <= u_num <= 96 * (crate::UNIT - 1),
            ;
            assert((i as int) * u_num <= 96 * ((steps * crate::UNIT) as int)) by (nonlinear_arith)
                requires
                    0 <= i < steps,
                    0 <= u_num <= 96 * (crate::UNIT - 1),
                    crate::UNIT == 16777216,
            ;
        }
        let t_num: i64 = (i as i64) * u_num;
        let pt = Point::OnSpiral { xo: xo, yo: yo, v_num: v, w_num: w, t_num: t_num, t_den: t_den };
        assert(wf_point(pt));
        let st = star(rng, Option::Some(pt));
        out.push(st);
        i = i + 1;
    }
    out
}

/// Generates one swirl cluster: a spiral arm of 18 to 54 plain stars
/// around a fresh center, with independently signed rates of magnitude
/// at most `0.1` and a total sweep of up to `96 * pi`.
///
/// The number of emitted stars always equals the drawn step count: the
/// arm is sampled at `t = i * (sweep / steps)` for exactly `steps`
/// values of `i`, which is `ceil(sweep / step)` samples of the original
/// half-open parameter range whenever the sweep is positive.
#[verifier::rlimit(50)]
pub fn swirl(rng: &mut Rng) -> (out: Vec<Primitive>)
    ensures
        out@ == spec_swirl(old(rng).state).0,
        final(rng).state == spec_swirl(old(rng).state).1,
        out@.len() == swirl_steps(old(rng).state),
        18 <= out@.len() <= 54,
        forall|i: int| 0 <= i < out@.len() ==> wf_primitive(#[trigger] out@[i]),
{
    let rxo = rng.next_roll();
    let xo: i64 = grid_coord(rxo, crate::WIDTH);
    let ryo = rng.next_roll();
    let yo: i64 = grid_coord(ryo, crate::HEIGHT);
    let rv = rng.next_roll();
    let nv = rng.next_sign();
    let v = rate(rv, nv);
    let rw = rng.next_roll();
    let nw = rng.next_sign();
    let w = rate(rw, nw);
    let ru = rng.next_roll();
    let u_num: i64 = (96 * ru) as i64;
    let raw = rng.next_u64();
    let steps: u64 = 18 + raw % 37;
    swirl_arm(rng, xo, yo, v, w, u_num, steps)
}

/// Computes the signed, magnitude-capped spiral rate from a roll and a
/// sign flip.
fn rate(r: u64, neg: bool) -> (v: i64)
    requires
        r < crate::UNIT,
    ensures
        v == rate_of(r, neg),
        -crate::UNIT <= v <= crate::UNIT,
{
    let mag: u64 = 29 * r;
    let m: i64 = if mag < crate::UNIT {
        mag as i64
    } else {
        crate::UNIT as i64
    };
    if neg {
        -m
    } else {
        m
    }
}

/// The primitives the object-kind roll `r` dispatches to from state `s`:
/// a swirl cluster in the rare band, a stretchy star in the stretchy
/// band, a plain star otherwise; paired with the state after all draws.
pub open spec fn spec_object_for(s: u64, r: u64) -> (Seq<Primitive>, u64) {
    if crate::rare_roll(r) {
        spec_swirl(s)
    } else if crate::stretchy_roll(r) {
        let p = spec_stretchy(s);
        (seq![p.0], p.1)
    } else {
        let p = spec_star(s, Option::None);
        (seq![p.0], p.1)
    }
}

/// The object generated at state `s`: a fresh roll picks the kind, then
/// the kind's generator runs.
pub open spec fn spec_object(s: u64) -> (Seq<Primitive>, u64) {
    spec_object_for(rng_step(s), unit_roll_at(s))
}

/// Generates the object a given kind roll selects: a swirl cluster
/// below `0.0025`, a stretchy star below `0.16`, else one plain star.
pub fn object_for_roll(rng: &mut Rng, r: u64) -> (out: Vec<Primitive>)
    requires
        r < crate::UNIT,
    ensures
        out@ == spec_object_for(old(rng).state, r).0,
        final(rng).state == spec_object_for(old(rng).state, r).1,
        out@.len() >= 1,
        forall|i: int| 0 <= i < out@.len() ==> wf_primitive(#[trigger] out@[i]),
{
    if 400 * r < crate::UNIT {
        swirl(rng)
    } else if 25 * r < 4 * crate::UNIT {
        let p = stretchy_star(rng);
        let mut out: Vec<Primitive> = Vec::new();
        out.push(p);
        assert(out@ =~= seq![spec_stretchy(old(rng).state).0]);
        out
    } else {
        let p = star(rng, Option::None);
        let mut out: Vec<Primitive> = Vec::new();
        out.push(p);
        assert(out@ =~= seq![spec_star(old(rng).state, Option::None).0]);
        out
    }
}

/// Generates one random object: a fresh roll picks the kind.
pub fn random_object(rng: &mut Rng) -> (out: Vec<Primitive>)
    ensures
        out@ == spec_object(old(rng).state).0,
        final(rng).state == spec_object(old(rng).state).1,
        out@.len() >= 1,
        forall|i: int| 0 <= i < out@.len() ==> wf_primitive(#[trigger] out@[i]),
{
    let r = rng.next_roll();
    object_for_roll(rng, r)
}

/// The display list of a scene of `k` objects generated from state `s`
/// (the background first, then the objects' primitives in generation
/// order), paired with the state after all draws.
pub open spec fn spec_scene(s: u64, k: int) -> (Seq<Primitive>, u64)
    decreases k,
{
    if k <= 0 {
        (seq![crate::scene::background()], s)
    } else {
        let prev = spec_scene(s, k - 1);
        let ob = spec_object(prev.1);
        (prev.0 + ob.0, ob.1)
    }
}

/// Builds the whole scene: a full-canvas black background rectangle
/// first, then the primitives of `n` generated objects, appended in
/// generation order. The display list is an exact function of the
/// starting state, its first entry is the background, and it holds at
/// least `1 + n` entries, every one of them well-formed.
pub fn build_scene(rng: &mut Rng, n: usize) -> (cv: crate::scene::Canvas)
    ensures
        cv.width == crate::WIDTH,
        cv.height == crate::HEIGHT,
        cv.list@ == spec_scene(old(rng).state, n as int).0,
        final(rng).state == spec_scene(old(rng).state, n as int).1,
        cv.list@.len() >= 1 + n,
        cv.list@[0] == crate::scene::background(),
        crate::scene::wf_canvas(cv),
{
    let ghost s0 = rng.state;
    let mut list: Vec<Primitive> = Vec::new();
    list.push(Primitive {
        shape: Shape::Rectangle { width: crate::WIDTH, height: crate::HEIGHT },
        pos: Point::At { x: 0, y: 0 },
        color: Color { r: 0, g: 0, b: 0 },
    });
    assert(list@ =~= spec_scene(s0, 0).0);
    let mut i: usize = 0;
    while i < n
        invariant
            0 <= i <= n,
            list@ == spec_scene(s0, i as int).0,
            rng.state == spec_scene(s0, i as int).1,
            list@.len() >= 1 + i,
            list@[0] == crate::scene::background(),
            forall|j: int| 0 <= j < list@.len() ==> wf_primitive(#[trigger] list@[j]),
        decreases n - i,
    {
        let obs = random_object(rng);
        let ghost before = list@;
        let mut k: usize = 0;
        while k < obs.len()
            invariant
                0 <= k <= obs@.len(),
                list@ == before + obs@.subrange(0, k as int),
                forall|j: int| 0 <= j < before.len() ==> wf_primitive(#[trigger] before[j]),
                forall|j: int| 0 <= j < obs@.len() ==> wf_primitive(#[trigger] obs@[j]),
                forall|j: int| 0 <= j < list@.len() ==> wf_primitive(#[trigger] list@[j]),
            decreases obs@.len() - k,
        {
            list.push(obs[k]);
            assert(list@ =~= before + obs@.subrange(0, k + 1));
            k = k + 1;
        }
        assert(obs@.subrange(0, obs@.len() as int) =~= obs@);
        assert(list@ =~= spec_scene(s0, i as int + 1).0);
        i = i + 1;
    }
    crate::scene::Canvas { width: crate::WIDTH, height: crate::HEIGHT, list: list }
}

} // verus!
