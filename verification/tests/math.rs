use mozart::math::color::Color;
use mozart::math::fixed::{Fx, FX_SCALE};
use mozart::math::matrix::Matrix;
use mozart::math::point::{pt2, pt2i, Pt2, Pt2i};
use mozart::math::transform::Transform;

fn fx(v: i64) -> Fx {
    Fx::from_int(v)
}

#[test]
fn fx_whole_number_arithmetic_is_exact() {
    assert_eq!(fx(3).raw, 3 * FX_SCALE);
    assert_eq!(fx(3).add(fx(2)).raw, 5 * FX_SCALE);
    assert_eq!(fx(3).sub(fx(5)).raw, -2 * FX_SCALE);
    assert_eq!(fx(3).mul(fx(2)).raw, 6 * FX_SCALE);
    assert_eq!(fx(-3).mul(fx(2)).raw, -6 * FX_SCALE);
    assert_eq!(fx(6).div(fx(2)).raw, 3 * FX_SCALE);
    assert_eq!(fx(7).neg().raw, -7 * FX_SCALE);
    assert_eq!(Fx::one().raw, FX_SCALE);
    assert_eq!(Fx::zero().raw, 0);
}

#[test]
fn fx_saturates_instead_of_wrapping() {
    let big = Fx::from_raw(i64::MAX);
    assert_eq!(big.add(Fx::one()).raw, i64::MAX);
    assert_eq!(big.mul(fx(2)).raw, i64::MAX);
    let small = Fx::from_raw(i64::MIN);
    assert_eq!(small.sub(Fx::one()).raw, i64::MIN);
    assert_eq!(small.neg().raw, i64::MAX);
}

#[test]
fn fx_division_rounds_toward_negative_infinity_for_positive_divisors() {
    // 2 / 800 in fixed point: floor(2 * 65536 / 800) = 163.
    assert_eq!(fx(2).div(fx(800)).raw, 163);
    // -2 / 600: floor(-2 * 65536 / 600) = -219.
    assert_eq!(fx(-2).div(fx(600)).raw, -219);
}

#[test]
fn fx_sqrt_matches_perfect_and_imperfect_squares() {
    assert_eq!(fx(9).sqrt().raw, 3 * FX_SCALE);
    assert_eq!(fx(25).sqrt().raw, 5 * FX_SCALE);
    // sqrt(2) * 65536 = 92681.9..., rounded down.
    assert_eq!(fx(2).sqrt().raw, 92681);
    assert_eq!(fx(0).sqrt().raw, 0);
}

#[test]
fn fx_floor_ceil_round_on_halves_and_negatives() {
    let minus_one_half = Fx::from_raw(-3 * FX_SCALE / 2);
    assert_eq!(minus_one_half.floor(), -2);
    assert_eq!(minus_one_half.ceil(), -1);
    assert_eq!(minus_one_half.round(), -2);
    let one_half = Fx::from_raw(3 * FX_SCALE / 2);
    assert_eq!(one_half.floor(), 1);
    assert_eq!(one_half.ceil(), 2);
    assert_eq!(one_half.round(), 2);
    assert_eq!(fx(4).floor(), 4);
    assert_eq!(fx(4).ceil(), 4);
    assert_eq!(fx(4).round(), 4);
}

#[test]
fn pt2i_componentwise_arithmetic() {
    let a = pt2i(3, -4);
    let b = Pt2i::new(10, 2);
    assert_eq!(a.add(b), pt2i(13, -2));
    assert_eq!(a.sub(b), pt2i(-7, -6));
    assert_eq!(a.mul(b), pt2i(30, -8));
    assert_eq!(a.mul_scalar(3), pt2i(9, -12));
    assert_eq!(a.length_squared(), 25);
    assert_eq!(Pt2i::zero(), pt2i(0, 0));
}

#[test]
fn pt2_normalize_of_three_four_triangle() {
    let p = pt2(fx(3), fx(4));
    assert_eq!(p.length_squared().raw, 25 * FX_SCALE);
    assert_eq!(p.length().raw, 5 * FX_SCALE);
    let n = p.normalized();
    // 3/5 and 4/5, rounded down to the fixed-point grid.
    assert_eq!(n.x.raw, 3 * FX_SCALE / 5);
    assert_eq!(n.y.raw, 4 * FX_SCALE / 5);
}

#[test]
fn pt2_normalize_leaves_zero_vector_alone() {
    let mut p = Pt2::zero();
    p.normalize();
    assert_eq!(p, Pt2::zero());
}

#[test]
fn pt2i_normalized_goes_through_fixed_point() {
    let n = pt2i(0, -2).normalized();
    assert_eq!(n.x.raw, 0);
    assert_eq!(n.y.raw, -FX_SCALE);
}

#[test]
fn pt2_dot_cross_sign_conventions() {
    let a = pt2(fx(2), fx(3));
    let b = pt2(fx(4), fx(5));
    assert_eq!(a.dot(b).raw, 23 * FX_SCALE);
    // Planar cross product: 2*5 - 3*4.
    assert_eq!(a.cross(b).raw, -2 * FX_SCALE);
    assert_eq!(a.cross(b).raw, -b.cross(a).raw);
    assert_eq!(a.cross(a).raw, 0);
    // Component-wise sign; zero counts as positive.
    assert_eq!(pt2(fx(-2), fx(9)).sign(), pt2i(-1, 1));
    assert_eq!(pt2(fx(0), fx(-9)).sign(), pt2i(1, -1));
}

#[test]
fn pt2_floor_ceil_round_componentwise() {
    let p = pt2(Fx::from_raw(3 * FX_SCALE / 2), Fx::from_raw(-FX_SCALE / 2));
    assert_eq!(p.floor(), pt2i(1, -1));
    assert_eq!(p.ceil(), pt2i(2, 0));
    assert_eq!(p.round(), pt2i(2, -1));
}

#[test]
fn transform_identity_returns_points_unchanged() {
    let t = Transform::identity();
    let p = pt2(fx(5), fx(-7));
    assert_eq!(p.apply(&t), p);
    let mut q = p;
    q.apply_assign(&t);
    assert_eq!(q, p);
}

#[test]
fn transform_applies_pivot_linear_offset_in_order() {
    let t = Transform::new(
        Matrix::from_rows(pt2(fx(2), fx(0)), pt2(fx(0), fx(3))),
        pt2(fx(10), fx(20)),
        pt2(fx(1), fx(1)),
    );
    let p = pt2(fx(4), fx(5));
    // ((4,5) - (1,1)) * diag(2,3) + (10,20) = (16, 32).
    assert_eq!(p.apply(&t), pt2(fx(16), fx(32)));
    // The same point computed step by step: pivot-subtract, linear map,
    // offset-add.
    let manual = p.sub(t.pivot).mul_mat(&t.mat).add(t.offset);
    assert_eq!(p.apply(&t), manual);
}

#[test]
fn transform_builders_accumulate_instead_of_replacing() {
    let t = Transform::identity().scaled_uniform(fx(2)).scaled_uniform(fx(2));
    // The diagonal accumulates by addition: 1 + 2 + 2.
    assert_eq!(t.mat.col0.x.raw, 5 * FX_SCALE);
    assert_eq!(t.mat.col1.y.raw, 5 * FX_SCALE);
    assert_eq!(t.mat.col0.y.raw, 0);

    let u = Transform::identity()
        .with_offset(pt2(fx(3), fx(4)))
        .with_offset(pt2(fx(1), fx(1)))
        .with_pivot(pt2(fx(2), fx(2)))
        .with_pivot(pt2(fx(-1), fx(0)));
    assert_eq!(u.offset, pt2(fx(4), fx(5)));
    assert_eq!(u.pivot, pt2(fx(1), fx(2)));
}

#[test]
fn matrix_row_vector_multiplication() {
    let m = Matrix::from_rows(pt2(fx(1), fx(2)), pt2(fx(3), fx(4)));
    // (1, 1) * [[1,2],[3,4]] = (1*1 + 1*3, 1*2 + 1*4) = (4, 6).
    let r = pt2(fx(1), fx(1)).mul_mat(&m);
    assert_eq!(r, pt2(fx(4), fx(6)));
    assert_eq!(m.column(0), pt2(fx(1), fx(3)));
    assert_eq!(m.column(1), pt2(fx(2), fx(4)));
    let i = Matrix::identity();
    assert_eq!(pt2(fx(7), fx(-9)).mul_mat(&i), pt2(fx(7), fx(-9)));
}

#[test]
fn color_hex_decoding_conventions() {
    let c = Color::from_hex_rgb(0x123456);
    // One byte per channel, red in the high byte; alpha is opaque.
    assert_eq!((c.r, c.g, c.b, c.a), (0x12, 0x34, 0x56, 255));
    let d = Color::from_hex_rgba(0x11223344);
    assert_eq!((d.r, d.g, d.b, d.a), (0x11, 0x22, 0x33, 0x44));
    assert_eq!(Color::new(1, 2, 3, 4), Color { r: 1, g: 2, b: 3, a: 4 });
    assert_eq!(Color::black(), Color { r: 0, g: 0, b: 0, a: 255 });
    assert_eq!(Color::red(), Color { r: 0xff, g: 0, b: 0, a: 255 });
    assert_eq!(Color::green(), Color { r: 0, g: 0xff, b: 0, a: 255 });
    assert_eq!(Color::blue(), Color { r: 0, g: 0, b: 0xff, a: 255 });
    assert_eq!(Color::white(), Color { r: 0xff, g: 0xff, b: 0xff, a: 255 });
    assert_eq!(Color::transparent(), Color { r: 0, g: 0, b: 0, a: 0 });
}

#[test]
fn pt2i_division_truncates_toward_zero() {
    let p = pt2i(7, -7);
    assert_eq!(p.div_scalar(2), pt2i(3, -3));
    assert_eq!(p.div(pt2i(-2, -2)), pt2i(-3, 3));
    let mut q = pt2i(1, 2);
    q.add_assign(pt2i(10, 10));
    assert_eq!(q, pt2i(11, 12));
    q.sub_assign(pt2i(1, 2));
    assert_eq!(q, pt2i(10, 10));
    q.mul_assign(pt2i(2, 3));
    assert_eq!(q, pt2i(20, 30));
}

#[test]
fn pt2_assign_operators_match_their_plain_forms() {
    let mut p = pt2(Fx::from_int(1), Fx::from_int(2));
    p.add_assign(pt2(Fx::from_int(3), Fx::from_int(4)));
    assert_eq!(p, pt2(Fx::from_int(4), Fx::from_int(6)));
    p.sub_assign(pt2(Fx::from_int(1), Fx::from_int(1)));
    assert_eq!(p, pt2(Fx::from_int(3), Fx::from_int(5)));
    p.mul_assign(pt2(Fx::from_int(2), Fx::from_int(2)));
    assert_eq!(p, pt2(Fx::from_int(6), Fx::from_int(10)));
    p.mul_assign_scalar(Fx::from_int(2));
    assert_eq!(p, pt2(Fx::from_int(12), Fx::from_int(20)));
    p.div_assign(pt2(Fx::from_int(4), Fx::from_int(4)));
    assert_eq!(p, pt2(Fx::from_int(3), Fx::from_int(5)));
    p.div_assign_scalar(Fx::from_int(5));
    assert_eq!(p.y, Fx::from_int(1));
}
