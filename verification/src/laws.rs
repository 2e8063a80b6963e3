//! Proved laws of the pipeline: endpoint symmetry of line drawing,
//! and identity properties of the rotation and transform constructors.
use vstd::prelude::*;
use crate::canvas::Color;
use crate::canvas::Point;
use crate::canvas::color_rgb_spec;
use crate::canvas::lemma_painted_congruence;
use crate::canvas::painted_spec;
use crate::fixed::FP_ONE;
use crate::fixed::FX_SAT;
use crate::fixed::lemma_round_div_exact;
use crate::fixed::round_div;
use crate::matrix::mat_apply_point_spec;
use crate::matrix::mat_identity_spec;
use crate::matrix::mat_mul_spec;
use crate::matrix::mat_rotation_y_spec;
use crate::matrix::mat_scale_spec;
use crate::matrix::mat_translation_spec;
use crate::raster::line_point_lit_spec;
use crate::raster::line_sorted_spec;
use crate::vector::VectorPoint;
use crate::vector::vec_add_spec;

verus! {

/// Rounded division by the fixed-point unit is exact on multiples of
/// the unit, in either operand order, and on zero.
proof fn lemma_rdiv_fp_exact(x: int)
    ensures
        round_div(x * FP_ONE as int, FP_ONE as int) == x,
        round_div(FP_ONE as int * x, FP_ONE as int) == x,
        round_div(0, FP_ONE as int) == 0,
{
    lemma_round_div_exact(x, FP_ONE as int);
    lemma_round_div_exact(0, FP_ONE as int);
    assert(x * FP_ONE as int == FP_ONE as int * x) by (nonlinear_arith);
    assert(0 * FP_ONE as int == 0) by (nonlinear_arith);
}

/// Law: line drawing is symmetric in its endpoints. Both orders of the
/// same two endpoints sort to the same ordered pair, light the same
/// pixels, and so paint any canvas identically.
pub proof fn lemma_draw_line_symmetric(
    m: Map<(int, int), (u8, u8, u8)>,
    sz: (int, int),
    a: Point,
    b: Point,
    color: Color,
)
    ensures
        line_sorted_spec(a, b) == line_sorted_spec(b, a),
        painted_spec(
            m,
            sz,
            |c: (int, int)| line_point_lit_spec(a, b, c),
            |c: (int, int)| color_rgb_spec(color),
        ) == painted_spec(
            m,
            sz,
            |c: (int, int)| line_point_lit_spec(b, a, c),
            |c: (int, int)| color_rgb_spec(color),
        ),
{
    let lit_ab = |c: (int, int)| line_point_lit_spec(a, b, c);
    let lit_ba = |c: (int, int)| line_point_lit_spec(b, a, c);
    assert(line_sorted_spec(a, b) == line_sorted_spec(b, a));
    assert forall|c: (int, int)| #![trigger lit_ab(c)] #![trigger lit_ba(c)] (lit_ab(c)
        <==> lit_ba(c)) by {
    }
    lemma_painted_congruence(
        m,
        sz,
        lit_ab,
        lit_ba,
        |c: (int, int)| color_rgb_spec(color),
        |c: (int, int)| color_rgb_spec(color),
    );
}

/// Law: a full turn is the identity. The rotation matrix for 360
/// degrees equals the identity matrix exactly, and applying it to any
/// point within the saturation range returns the point unchanged.
pub proof fn lemma_full_turn_rotation_is_identity(v: VectorPoint)
    requires
        -FX_SAT <= v.x <= FX_SAT,
        -FX_SAT <= v.y <= FX_SAT,
        -FX_SAT <= v.z <= FX_SAT,
    ensures
        mat_rotation_y_spec(360) == mat_identity_spec(),
        mat_apply_point_spec(mat_rotation_y_spec(360), v) == v,
{
    assert(mat_rotation_y_spec(360) == mat_identity_spec());
    lemma_rdiv_fp_exact(v.x as int);
    lemma_rdiv_fp_exact(v.y as int);
    lemma_rdiv_fp_exact(v.z as int);
    lemma_rdiv_fp_exact(FP_ONE as int);
    assert(0 * (v.x as int) == 0 && 0 * (v.y as int) == 0 && 0 * (v.z as int) == 0 && 0 * (
    FP_ONE as int) == 0) by (nonlinear_arith);
}

/// Law: composing translation by `t` with a zero rotation and a unit
/// scale is translation by `t` alone, and applying it to a point adds
/// `t` to the point (component-wise, with saturation).
pub proof fn lemma_trivial_composition_is_translation(p: VectorPoint, t: VectorPoint)
    requires
        -FX_SAT <= t.x <= FX_SAT,
        -FX_SAT <= t.y <= FX_SAT,
        -FX_SAT <= t.z <= FX_SAT,
    ensures
        mat_mul_spec(
            mat_translation_spec(t),
            mat_mul_spec(mat_rotation_y_spec(0), mat_scale_spec(FP_ONE)),
        ) == mat_translation_spec(t),
        mat_apply_point_spec(mat_translation_spec(t), p) == vec_add_spec(p, t),
{
    assert(mat_rotation_y_spec(0) == mat_identity_spec());
    lemma_rdiv_fp_exact(FP_ONE as int);
    lemma_rdiv_fp_exact(0);
    lemma_rdiv_fp_exact(t.x as int);
    lemma_rdiv_fp_exact(t.y as int);
    lemma_rdiv_fp_exact(t.z as int);
    lemma_rdiv_fp_exact(p.x as int);
    lemma_rdiv_fp_exact(p.y as int);
    lemma_rdiv_fp_exact(p.z as int);
    assert(mat_mul_spec(mat_rotation_y_spec(0), mat_scale_spec(FP_ONE)) == mat_identity_spec());
    assert(mat_mul_spec(mat_translation_spec(t), mat_identity_spec()) == mat_translation_spec(t));
    assert(mat_apply_point_spec(mat_translation_spec(t), p) == vec_add_spec(p, t));
}

} // verus!
