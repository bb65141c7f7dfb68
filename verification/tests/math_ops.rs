//! Fixed-point vector and integer arithmetic primitives.

use hand_physics::math::{cross, div_trunc, vec_sub, Vec3Fx, SCALE};

fn v(x: i64, y: i64, z: i64) -> Vec3Fx {
    Vec3Fx { x, y, z }
}

#[test]
fn test_div_trunc_rounds_toward_zero() {
    assert_eq!(div_trunc(7, 2), 3);
    assert_eq!(div_trunc(-7, 2), -3);
    assert_eq!(div_trunc(1, 2), 0);
    assert_eq!(div_trunc(-1, 2), 0);
    assert_eq!(div_trunc(0, 5), 0);
    assert_eq!(div_trunc(i64::MAX, 1), i64::MAX);
}

#[test]
fn test_vec_sub_componentwise() {
    let a = v(10, -20, 30);
    let b = v(1, 2, 3);
    assert_eq!(vec_sub(a, b), v(9, -22, 27));
}

#[test]
fn test_cross_exact() {
    // x-hat cross y-hat is z-hat; at SCALE, the raw product carries SCALE^2.
    let x_hat = v(SCALE, 0, 0);
    let y_hat = v(0, SCALE, 0);
    assert_eq!(cross(x_hat, y_hat), (0, 0, SCALE * SCALE));
    // The cross product is antisymmetric.
    assert_eq!(cross(y_hat, x_hat), (0, 0, -(SCALE * SCALE)));
    // The cross product of a vector with itself vanishes.
    let w = v(123_456_789, -987_654_321, 555_555_555);
    assert_eq!(cross(w, w), (0, 0, 0));
}
