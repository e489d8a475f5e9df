//! Collision geometry: bounding-circle vs. axis-aligned-box intersection with
//! side classification, and guarded velocity reflection.
//!
//! The side of a collision is where the ball stands relative to the box:
//! `Left` means the ball center is to the left of the box's closest boundary
//! point. Horizontal dominance requires a strictly greater horizontal offset
//! magnitude; ties fall to the vertical branch.

use vstd::prelude::*;

verus! {

/// Largest coordinate magnitude (in subunits) that the collision tests
/// accept; keeps every intermediate square sum inside `i64`.
pub const COORD_LIMIT: i64 = 500_000_000;

/// A 2-D point or vector over integer subunits.
#[derive(Clone, Copy, Debug, PartialEq, Eq, Structural)]
pub struct Vec2 {
    pub x: i64,
    pub y: i64,
}

/// The side of a box on which a collision happened, seen from the box:
/// `Left` means the ball came from the left.
#[derive(Clone, Copy, Debug, PartialEq, Eq, Structural)]
pub enum Side {
    Left,
    Right,
    Top,
    Bottom,
}

/// Magnitude of an integer.
pub open spec fn mag(v: int) -> int {
    if v < 0 {
        -v
    } else {
        v
    }
}

/// `v` clamped into the closed interval `[lo, hi]`.
pub open spec fn clamped(v: int, lo: int, hi: int) -> int {
    if v < lo {
        lo
    } else if v > hi {
        hi
    } else {
        v
    }
}

/// Coordinate magnitude acceptable to the collision tests.
pub open spec fn in_range(v: int) -> bool {
    -COORD_LIMIT <= v <= COORD_LIMIT
}

pub open spec fn vec_in_range(v: Vec2) -> bool {
    in_range(v.x as int) && in_range(v.y as int)
}

/// Horizontal coordinate of the box point closest to `p`.
pub open spec fn closest_x(p: Vec2, box_center: Vec2, half: Vec2) -> int {
    clamped(p.x as int, box_center.x - half.x, box_center.x + half.x)
}

/// Vertical coordinate of the box point closest to `p`.
pub open spec fn closest_y(p: Vec2, box_center: Vec2, half: Vec2) -> int {
    clamped(p.y as int, box_center.y - half.y, box_center.y + half.y)
}

/// The circle around `center` with radius `radius` meets the box:
/// the squared distance from the center to the closest box point is at
/// most the squared radius.
pub open spec fn circle_box_overlap(center: Vec2, radius: int, box_center: Vec2, half: Vec2) -> bool {
    let ox = center.x - closest_x(center, box_center, half);
    let oy = center.y - closest_y(center, box_center, half);
    ox * ox + oy * oy <= radius * radius
}

/// Side chosen for an offset vector from the closest box point to the ball
/// center: the horizontal branch only on strict dominance of `|ox|`, the
/// vertical branch otherwise (ties included).
pub open spec fn side_of_offset(ox: int, oy: int) -> Side {
    if mag(ox) > mag(oy) {
        if ox < 0 {
            Side::Left
        } else {
            Side::Right
        }
    } else {
        if oy > 0 {
            Side::Top
        } else {
            Side::Bottom
        }
    }
}

/// Full classification: absence when the circle misses the box, otherwise
/// the side of the dominant offset axis.
pub open spec fn spec_classify(center: Vec2, radius: int, box_center: Vec2, half: Vec2) -> Option<
    Side,
> {
    if circle_box_overlap(center, radius, box_center, half) {
        let ox = center.x - closest_x(center, box_center, half);
        let oy = center.y - closest_y(center, box_center, half);
        Some(side_of_offset(ox, oy))
    } else {
        None
    }
}

/// `v` clamped into `[lo, hi]`.
pub fn clamp_i64(v: i64, lo: i64, hi: i64) -> (r: i64)
    requires
        lo <= hi,
    ensures
        r == clamped(v as int, lo as int, hi as int),
{
    if v < lo {
        lo
    } else if v > hi {
        hi
    } else {
        v
    }
}

/// Circle-vs-box collision test with side classification.
///
/// Returns absence exactly when the ball's bounding circle does not meet the
/// box; otherwise the side is chosen from the offset between the ball center
/// and the box's closest boundary point, horizontal only on strict dominance.
pub fn classify_collision(center: Vec2, radius: i64, box_center: Vec2, half: Vec2) -> (r: Option<
    Side,
>)
    requires
        vec_in_range(center),
        vec_in_range(box_center),
        0 <= radius <= COORD_LIMIT,
        0 <= half.x <= COORD_LIMIT,
        0 <= half.y <= COORD_LIMIT,
    ensures
        r == spec_classify(center, radius as int, box_center, half),
        !circle_box_overlap(center, radius as int, box_center, half) ==> r is None,
        circle_box_overlap(center, radius as int, box_center, half) ==> r == Some(
            side_of_offset(
                center.x - closest_x(center, box_center, half),
                center.y - closest_y(center, box_center, half),
            ),
        ),
{
    let cx = clamp_i64(center.x, box_center.x - half.x, box_center.x + half.x);
    let cy = clamp_i64(center.y, box_center.y - half.y, box_center.y + half.y);
    let ox = center.x - cx;
    let oy = center.y - cy;
    proof {
        assert(0 <= ox * ox <= 2_250_000_000_000_000_000) by (nonlinear_arith)
            requires
                -1_500_000_000 <= ox <= 1_500_000_000,
        ;
        assert(0 <= oy * oy <= 2_250_000_000_000_000_000) by (nonlinear_arith)
            requires
                -1_500_000_000 <= oy <= 1_500_000_000,
        ;
        assert(0 <= radius * radius <= 250_000_000_000_000_000) by (nonlinear_arith)
            requires
                0 <= radius <= 500_000_000,
        ;
    }
    if ox * ox + oy * oy > radius * radius {
        return None;
    }
    let ax = if ox < 0 {
        -ox
    } else {
        ox
    };
    let ay = if oy < 0 {
        -oy
    } else {
        oy
    };
    if ax > ay {
        if ox < 0 {
            Some(Side::Left)
        } else {
            Some(Side::Right)
        }
    } else {
        if oy > 0 {
            Some(Side::Top)
        } else {
            Some(Side::Bottom)
        }
    }
}

/// Velocity after a guarded reflection against a collision on `side`:
/// the component toward the collider is flipped, a component already moving
/// away is left alone.
pub open spec fn spec_reflect(v: Vec2, side: Side) -> Vec2 {
    Vec2 {
        x: if (side is Left && v.x > 0) || (side is Right && v.x < 0) {
            (-(v.x as int)) as i64
        } else {
            v.x
        },
        y: if (side is Top && v.y < 0) || (side is Bottom && v.y > 0) {
            (-(v.y as int)) as i64
        } else {
            v.y
        },
    }
}

/// Guarded velocity reflection.
///
/// The x component flips only when the ball moves toward a collider hit on
/// its left or right; the y component only when it moves toward one hit on
/// its top or bottom. A ball already moving away keeps its velocity, which
/// rules out double bounces.
pub fn reflect_velocity(v: Vec2, side: Side) -> (r: Vec2)
    requires
        vec_in_range(v),
    ensures
        r == spec_reflect(v, side),
        vec_in_range(r),
{
    let flip_x = match side {
        Side::Left => v.x > 0,
        Side::Right => v.x < 0,
        Side::Top => false,
        Side::Bottom => false,
    };
    let flip_y = match side {
        Side::Top => v.y < 0,
        Side::Bottom => v.y > 0,
        Side::Left => false,
        Side::Right => false,
    };
    Vec2 {
        x: if flip_x {
            -v.x
        } else {
            v.x
        },
        y: if flip_y {
            -v.y
        } else {
            v.y
        },
    }
}

/// The classified side always matches the sign of the dominant offset axis,
/// and a tie between the two magnitudes falls to the vertical branch.
pub proof fn lemma_side_matches_dominant_axis(ox: int, oy: int)
    ensures
        mag(ox) > mag(oy) && ox < 0 ==> side_of_offset(ox, oy) == Side::Left,
        mag(ox) > mag(oy) && ox > 0 ==> side_of_offset(ox, oy) == Side::Right,
        mag(ox) > mag(oy) ==> ox != 0,
        mag(ox) <= mag(oy) && oy > 0 ==> side_of_offset(ox, oy) == Side::Top,
        mag(ox) <= mag(oy) && oy <= 0 ==> side_of_offset(ox, oy) == Side::Bottom,
        mag(ox) == mag(oy) ==> (side_of_offset(ox, oy) is Top || side_of_offset(ox, oy) is Bottom),
{
}

/// Reflection is idempotent: with the guard recomputed fresh, reflecting an
/// already reflected velocity against the same side changes nothing, so a
/// single tick can never flip a component twice.
pub proof fn lemma_reflect_idempotent(v: Vec2, side: Side)
    requires
        vec_in_range(v),
    ensures
        spec_reflect(spec_reflect(v, side), side) == spec_reflect(v, side),
{
}

} // verus!
