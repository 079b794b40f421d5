//! Angles on the compass and the directional cone.
//!
//! Every angle is an integer number of micro-degrees (millionths of a degree);
//! a full turn is `FULL_TURN`.
use vstd::prelude::*;
use vstd::arithmetic::div_mod::{
    lemma_mod_add_multiples_vanish, lemma_mod_bound, lemma_mod_multiples_vanish, lemma_small_mod,
    lemma_sub_mod_noop,
};

verus! {

/// Micro-degrees in one degree.
pub const MICRO_DEGREES: i64 = 1_000_000;

/// A full turn, 360 degrees.
pub const FULL_TURN: i64 = 360_000_000;

/// Half a turn, 180 degrees.
pub const HALF_TURN: i64 = 180_000_000;

/// Width of the directional cone, 70 degrees.
pub const CONE_WIDTH: i64 = 70_000_000;

/// An angle brought into `[0, FULL_TURN)`.
pub open spec fn angle_mod(a: int) -> int {
    a % (FULL_TURN as int)
}

/// Circular distance between two angles: the smaller of the two arcs between
/// them, in `[0, HALF_TURN]`.
pub open spec fn angular_distance(a: int, b: int) -> int {
    let d = angle_mod(a - b);
    if d > HALF_TURN as int {
        FULL_TURN as int - d
    } else {
        d
    }
}

/// `bearing` lies in the cone of total width `width` centred on `target`.
pub open spec fn in_cone(bearing: int, target: int, width: int) -> bool {
    2 * angular_distance(bearing, target) <= width
}

/// Brings an angle into `[0, FULL_TURN)`.
pub fn normalize_angle(a: i64) -> (r: i64)
    ensures
        r as int == angle_mod(a as int),
        0 <= r < FULL_TURN,
{
    proof {
        lemma_mod_bound(a as int, FULL_TURN as int);
    }
    match a.checked_rem_euclid(FULL_TURN) {
        Some(r) => r,
        None => 0,
    }
}

/// Whether `bearing` lies within the cone of total width `cone_width` centred
/// on `target_bearing`, measuring the angle between them around the circle
/// (so that 355 and 5 degrees are 10 degrees apart).
pub fn is_within_cone(bearing: i64, target_bearing: i64, cone_width: i64) -> (r: bool)
    ensures
        r == in_cone(bearing as int, target_bearing as int, cone_width as int),
{
    let b = normalize_angle(bearing);
    let t = normalize_angle(target_bearing);
    let mut diff: i64 = b - t;
    if diff < 0 {
        diff = diff + FULL_TURN;
    }
    proof {
        let f = FULL_TURN as int;
        lemma_sub_mod_noop(bearing as int, target_bearing as int, f);
        if b - t < 0 {
            lemma_mod_add_multiples_vanish((b - t) as int, f);
        }
        lemma_small_mod(diff as nat, f as nat);
        assert(diff as int == angle_mod(bearing - target_bearing));
    }
    if diff > HALF_TURN {
        diff = FULL_TURN - diff;
    }
    2 * diff <= cone_width
}

/// The cone is symmetric around its centre: a bearing `offset` clockwise of
/// the target is inside exactly when the one `offset` anticlockwise is.
pub proof fn lemma_cone_symmetric(target: int, offset: int, width: int)
    ensures
        in_cone(target + offset, target, width) == in_cone(target - offset, target, width),
{
    let f = FULL_TURN as int;
    let m = angle_mod(offset);
    lemma_mod_bound(offset, f);
    assert(target + offset - target == offset);
    assert(target - offset - target == 0 - offset);
    lemma_sub_mod_noop(0, offset, f);
    lemma_small_mod(0, f as nat);
    if m > 0 {
        lemma_mod_add_multiples_vanish(0 - m, f);
        lemma_small_mod((f - m) as nat, f as nat);
        assert(angle_mod(0 - offset) == f - m);
    } else {
        lemma_small_mod(0, f as nat);
        assert(angle_mod(0 - offset) == 0);
    }
}

/// Whole turns do not matter: adding `turns` full turns to a bearing leaves it
/// inside or outside the cone as it was, so the cone wraps across 0 degrees.
pub proof fn lemma_cone_wraps(bearing: int, target: int, width: int, turns: int)
    ensures
        in_cone(bearing + turns * FULL_TURN, target, width) == in_cone(bearing, target, width),
{
    let f = FULL_TURN as int;
    assert(bearing + turns * f - target == f * turns + (bearing - target)) by (nonlinear_arith);
    lemma_mod_multiples_vanish(turns, bearing - target, f);
}

} // verus!
