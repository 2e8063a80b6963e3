use raster::canvas::Point;
use raster::fixed::FP_ONE;
use raster::fixed::fx_add;
use raster::fixed::fx_div;
use raster::fixed::fx_mul;
use raster::matrix::Matrix;
use raster::trig::cos_fx;
use raster::trig::sin_fx;
use raster::vector::VectorPoint;
use raster::vector::dot;

fn fx(v: i64) -> i64 {
    v * FP_ONE
}

#[test]
fn fixed_point_arithmetic_is_exact_on_integers() {
    assert_eq!(fx_mul(fx(3), fx(4)), fx(12));
    assert_eq!(fx_mul(fx(-3), fx(4)), fx(-12));
    assert_eq!(fx_div(fx(12), fx(4)), fx(3));
    assert_eq!(fx_add(fx(5), fx(-2)), fx(3));
    // rounding is to the nearest representable value
    assert_eq!(fx_mul(FP_ONE / 2, FP_ONE / 2), FP_ONE / 4);
}

#[test]
fn sine_table_hits_the_cardinal_angles() {
    assert_eq!(sin_fx(0), 0);
    assert_eq!(sin_fx(90), FP_ONE);
    assert_eq!(sin_fx(180), 0);
    assert_eq!(sin_fx(270), -FP_ONE);
    assert_eq!(sin_fx(360), 0);
    assert_eq!(sin_fx(-90), -FP_ONE);
    assert_eq!(sin_fx(450), FP_ONE);
    assert_eq!(cos_fx(0), FP_ONE);
    assert_eq!(cos_fx(90), 0);
    assert_eq!(cos_fx(180), -FP_ONE);
    assert_eq!(cos_fx(60), 32768);
    assert_eq!(sin_fx(30), 32768);
}

#[test]
fn full_turn_rotation_is_the_identity_matrix() {
    assert_eq!(Matrix::new_Y_rotation_matrix(360), Matrix::identity());
    assert_eq!(Matrix::new_Y_rotation_matrix(0), Matrix::identity());
    let v = VectorPoint::new(fx(7), fx(-2), fx(9));
    assert_eq!(v.rotate(360), v);
}

#[test]
fn trivial_composition_equals_translation() {
    let t = VectorPoint::new(fx(3), fx(-2), fx(1));
    let composed = Matrix::new_translation_matrix(t)
        .multiply(&Matrix::new_Y_rotation_matrix(0).multiply(&Matrix::new_scale_matrix(FP_ONE)));
    assert_eq!(composed, Matrix::new_translation_matrix(t));
    let p = VectorPoint::new(fx(10), fx(20), fx(30));
    assert_eq!(composed.apply(&p), p.add(&t));
}

#[test]
fn rotation_by_quarter_turn_swaps_x_and_z() {
    let v = VectorPoint::new(FP_ONE, 0, 0);
    let r = v.rotate(90);
    assert_eq!((r.x, r.y, r.z), (0, 0, -FP_ONE));
    let w = VectorPoint::new(0, 0, FP_ONE);
    let rw = w.rotate(90);
    assert_eq!((rw.x, rw.y, rw.z), (FP_ONE, 0, 0));
}

#[test]
fn transpose_flips_the_off_diagonal_entries() {
    let m = Matrix::new_Y_rotation_matrix(30);
    let t = m.transpose();
    assert_eq!(t.m02, m.m20);
    assert_eq!(t.m20, m.m02);
    assert_eq!(t.m00, m.m00);
    assert_eq!(t.transpose(), m);
}

#[test]
fn scale_matrix_scales_every_coordinate() {
    let v = VectorPoint::new(fx(1), fx(2), fx(3));
    let s = v.scale(fx(2));
    assert_eq!((s.x, s.y, s.z), (fx(2), fx(4), fx(6)));
}

#[test]
fn translate_moves_a_point() {
    let v = VectorPoint::new(fx(1), fx(1), fx(1));
    let t = v.translate(VectorPoint::new(fx(1), fx(2), fx(3)));
    assert_eq!((t.x, t.y, t.z), (fx(2), fx(3), fx(4)));
}

#[test]
fn dot_ignores_the_homogeneous_coordinate() {
    let a = VectorPoint::new(fx(1), fx(2), fx(3));
    let b = VectorPoint::new(fx(4), fx(5), fx(6));
    assert_eq!(dot(&a, &b), fx(32));
}

#[test]
fn matrix_multiplication_is_not_commutative() {
    let a = Matrix::new_translation_matrix(VectorPoint::new(fx(1), 0, 0));
    let b = Matrix::new_Y_rotation_matrix(90);
    assert_ne!(a.multiply(&b), b.multiply(&a));
}

#[test]
fn default_matrix_is_zero_but_for_the_homogeneous_one() {
    let d = Matrix::default();
    assert_eq!(d.m33, FP_ONE);
    assert_eq!(d.m00, 0);
    assert_eq!(Matrix::zeroed().m33, 0);
}

#[test]
fn point_swap_exchanges_the_points() {
    let mut a = Point::new(1, 2);
    let mut b = Point::new(3, 4);
    Point::swap(&mut a, &mut b);
    assert_eq!(a, Point::new(3, 4));
    assert_eq!(b, Point::new(1, 2));
}
