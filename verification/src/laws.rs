//! Global properties of the generator, stated and proved once over the
//! spec-level model.

use vstd::prelude::*;

use crate::gen::radius_of;
use crate::gen::spec_arm_prefix;
use crate::gen::spec_object;
use crate::gen::spec_scene;
use crate::gen::swirl_params;
use crate::rng::rng_step;
use crate::rng::unit_roll_at;
use crate::scene::Point;
use crate::scene::wf_point;

verus! {

/// Radius/rarity correlation: the radius a rarity roll selects is 3
/// exactly in the rare band (below `0.0025`), 2 exactly in the rest of
/// the uncommon band (below `0.05`), 1 otherwise, and always one of
/// 1, 2, 3.
pub proof fn lemma_radius_rarity(r: u64)
    ensures
        crate::rare_roll(r) ==> radius_of(r) == 3,
        !crate::rare_roll(r) && crate::uncommon_roll(r) ==> radius_of(r) == 2,
        !crate::uncommon_roll(r) ==> radius_of(r) == 1,
        1 <= radius_of(r) <= 3,
{
}

/// Swirl spatial bound: a well-formed spiral sample lies within
/// `9.6 * pi` canvas units of its center. The distance of the sample
/// from `(xo, yo)` is `|v| * t = pi * |v_num| * t_num / (10 * UNIT *
/// t_den)`, so the integer bound proved here says exactly that this
/// distance is at most `pi * 9.6`, i.e. `0.1 * 96 * pi`, about `30.2`.
pub proof fn lemma_spiral_radial_bound(p: Point)
    requires
        wf_point(p),
    ensures
        (p matches Point::OnSpiral { v_num, t_num, t_den, .. } ==> -(96 * crate::UNIT * t_den)
            <= v_num * t_num <= 96 * crate::UNIT * t_den),
{
    if let Point::OnSpiral { v_num, t_num, t_den, .. } = p {
        assert(-(96 * crate::UNIT * t_den) <= v_num * t_num <= 96 * crate::UNIT * t_den)
            by (nonlinear_arith)
            requires
                -crate::UNIT <= v_num <= crate::UNIT,
                0 <= t_num <= 96 * t_den,
                t_den >= 0,
        ;
    }
}

/// The arm prefix of `k` samples holds exactly `k` stars.
pub proof fn lemma_arm_prefix_len(
    xo: i64,
    yo: i64,
    v: i64,
    w: i64,
    u_num: i64,
    steps: u64,
    k: int,
    s: u64,
)
    requires
        k >= 0,
    ensures
        spec_arm_prefix(xo, yo, v, w, u_num, steps, k, s).0.len() == k,
    decreases k,
{
    if k > 0 {
        lemma_arm_prefix_len(xo, yo, v, w, u_num, steps, k - 1, s);
    }
}

/// Every generated object contributes at least one primitive; a swirl
/// contributes its full step count, at least 18.
pub proof fn lemma_object_min_len(s: u64)
    ensures
        spec_object(s).0.len() >= 1,
{
    let r = unit_roll_at(s);
    let s1 = rng_step(s);
    if crate::rare_roll(r) {
        let p = swirl_params(s1);
        lemma_arm_prefix_len(p.0, p.1, p.2, p.3, p.4, p.5, p.5 as int, p.6);
    }
}

/// Scene composition: a scene of `n` objects opens with the full-canvas
/// background rectangle and holds at least `1 + n` display-list entries,
/// since every object contributes at least one primitive.
pub proof fn lemma_scene_composition(s: u64, n: int)
    requires
        n >= 0,
    ensures
        spec_scene(s, n).0.len() >= 1 + n,
        spec_scene(s, n).0[0] == crate::scene::background(),
    decreases n,
{
    if n > 0 {
        lemma_scene_composition(s, n - 1);
        lemma_object_min_len(spec_scene(s, n - 1).1);
    }
}

/// Determinism under a fixed seed: the scene display list is a
/// mathematical function of the starting random state and the object
/// count, so two runs from equal states produce equal lists.
pub proof fn lemma_scene_deterministic(s1: u64, s2: u64, n: int)
    requires
        s1 == s2,
    ensures
        spec_scene(s1, n) == spec_scene(s2, n),
{
}

} // verus!
