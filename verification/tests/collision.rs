//! Collision classification and velocity reflection on concrete values.

use breakout_core::geometry::{classify_collision, reflect_velocity, Side, Vec2};

fn v(x: i64, y: i64) -> Vec2 {
    Vec2 { x, y }
}

const R: i64 = 15_000;
const BOX_CENTER: Vec2 = Vec2 { x: 100_000, y: 0 };
const BOX_HALF: Vec2 = Vec2 { x: 50_000, y: 50_000 };

#[test]
fn no_overlap_returns_absence() {
    // Ball far to the left of the box.
    assert_eq!(classify_collision(v(0, 0), R, BOX_CENTER, BOX_HALF), None);
    // One subunit beyond touching distance.
    assert_eq!(classify_collision(v(34_999, 0), R, BOX_CENTER, BOX_HALF), None);
    // Far away diagonally.
    assert_eq!(
        classify_collision(v(-400_000, 280_000), R, BOX_CENTER, BOX_HALF),
        None
    );
}

#[test]
fn touching_counts_as_overlap() {
    // Distance to the closest box point exactly equals the radius.
    assert_eq!(
        classify_collision(v(35_000, 0), R, BOX_CENTER, BOX_HALF),
        Some(Side::Left)
    );
}

#[test]
fn side_matches_sign_of_dominant_axis() {
    assert_eq!(
        classify_collision(v(40_000, 5_000), R, BOX_CENTER, BOX_HALF),
        Some(Side::Left)
    );
    assert_eq!(
        classify_collision(v(165_000, 0), R, BOX_CENTER, BOX_HALF),
        Some(Side::Right)
    );
    assert_eq!(
        classify_collision(v(100_000, 60_000), R, BOX_CENTER, BOX_HALF),
        Some(Side::Top)
    );
    assert_eq!(
        classify_collision(v(100_000, -60_000), R, BOX_CENTER, BOX_HALF),
        Some(Side::Bottom)
    );
}

#[test]
fn tie_resolves_to_vertical_branch() {
    // Offset from the corner is (10_000, 10_000): equal magnitudes, so the
    // vertical branch decides, not the horizontal one.
    assert_eq!(
        classify_collision(v(160_000, 60_000), R, BOX_CENTER, BOX_HALF),
        Some(Side::Top)
    );
    assert_eq!(
        classify_collision(v(160_000, -60_000), R, BOX_CENTER, BOX_HALF),
        Some(Side::Bottom)
    );
    // A ball center inside the box has a zero offset: vertical branch,
    // non-positive sign.
    assert_eq!(
        classify_collision(v(100_000, 0), R, BOX_CENTER, BOX_HALF),
        Some(Side::Bottom)
    );
}

#[test]
fn reflection_flips_only_toward_motion() {
    // Moving right into a collider on the left side of which we stand.
    assert_eq!(reflect_velocity(v(100, 50), Side::Left), v(-100, 50));
    // Already moving away: untouched.
    assert_eq!(reflect_velocity(v(-100, 50), Side::Left), v(-100, 50));
    assert_eq!(reflect_velocity(v(100, -50), Side::Top), v(100, 50));
    assert_eq!(reflect_velocity(v(100, 50), Side::Top), v(100, 50));
    assert_eq!(reflect_velocity(v(100, 50), Side::Bottom), v(100, -50));
    assert_eq!(reflect_velocity(v(-100, 50), Side::Right), v(100, 50));
}

#[test]
fn reflection_is_idempotent_under_the_guard() {
    let once = reflect_velocity(v(300, -400), Side::Left);
    let twice = reflect_velocity(once, Side::Left);
    assert_eq!(once, twice);
    let once = reflect_velocity(v(300, -400), Side::Top);
    let twice = reflect_velocity(once, Side::Top);
    assert_eq!(once, twice);
    let once = reflect_velocity(v(0, 0), Side::Bottom);
    let twice = reflect_velocity(once, Side::Bottom);
    assert_eq!(once, twice);
}
