use re_rolling::geom::{
    clamp_to_world, dist2_u64, isqrt64, mul_div_toward_zero, step_toward, Vec2, COORD_LIMIT,
};

#[test]
fn integer_square_root_brackets_the_square() {
    assert_eq!(isqrt64(0), 0);
    assert_eq!(isqrt64(1), 1);
    assert_eq!(isqrt64(15), 3);
    assert_eq!(isqrt64(16), 4);
    assert_eq!(isqrt64(999_999), 999);
    assert_eq!(isqrt64(1_000_000), 1000);
    assert_eq!(isqrt64(u64::MAX), 0xffff_ffff);
}

#[test]
fn normalisation_lands_on_the_unit_scale() {
    // A 3-4-5 triangle normalises exactly.
    let v = Vec2 { x: 3000, y: -4000 };
    let n = v.normalize_or_zero();
    assert_eq!(n, Vec2 { x: 600, y: -800 });
    // The zero vector stays zero.
    assert_eq!(Vec2 { x: 0, y: 0 }.normalize_or_zero(), Vec2 { x: 0, y: 0 });
}

#[test]
fn scaling_toward_zero_truncates_magnitudes() {
    assert_eq!(mul_div_toward_zero(7, 1, 2), 3);
    assert_eq!(mul_div_toward_zero(-7, 1, 2), -3);
    assert_eq!(mul_div_toward_zero(100, 3, 4), 75);
}

#[test]
fn step_toward_arrives_when_the_distance_fits() {
    let pos = Vec2 { x: 0, y: 0 };
    let target = Vec2 { x: 3000, y: 4000 };
    // Distance is 5000: a budget of 5000 lands exactly on the target.
    assert_eq!(step_toward(pos, target, 5000), target);
    // A budget of 2500 covers half the line.
    let half = step_toward(pos, target, 2500);
    assert_eq!(half, Vec2 { x: 1500, y: 2000 });
    // The squared distance shrinks along the way.
    assert!(dist2_u64(half, target) < dist2_u64(pos, target));
}

#[test]
fn positions_clamp_into_the_playable_box() {
    let v = Vec2 { x: COORD_LIMIT + 5, y: -COORD_LIMIT - 5 };
    assert_eq!(clamp_to_world(v), Vec2 { x: COORD_LIMIT, y: -COORD_LIMIT });
    let inside = Vec2 { x: 123, y: -456 };
    assert_eq!(clamp_to_world(inside), inside);
}
