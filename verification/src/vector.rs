//! Points and direction vectors in 3-space, in fixed-point coordinates,
//! and their homogeneous 4-component form used by the matrix algebra.
use vstd::prelude::*;
use crate::fixed::FP_ONE;
use crate::fixed::fx_add;
use crate::fixed::fx_add_spec;
use crate::fixed::fx_neg;
use crate::fixed::fx_neg_spec;
use crate::fixed::fx_dot3;
use crate::fixed::fx_dot3_spec;
use crate::matrix::Matrix;
use crate::matrix::mat_apply_spec;
use crate::matrix::mat_rotation_y_spec;
use crate::matrix::mat_scale_spec;
use crate::matrix::mat_translation_spec;
use crate::matrix::mat_transpose_spec;

verus! {

/// A point (or vector) in 3-space; each coordinate is a fixed-point value.
#[derive(Clone, Copy, Debug, PartialEq, Eq, Structural)]
pub struct VectorPoint {
    pub x: i64,
    pub y: i64,
    pub z: i64,
}

/// The homogeneous form of a point: `(x, y, z, FP_ONE)`, the fourth
/// component being the fixed-point representation of 1. A carrier for
/// matrix application; the point-level operations promote and demote it.
#[derive(Clone, Copy, Debug, PartialEq, Eq, Structural)]
pub struct HomogenousVectorPoint {
    pub v0: i64,
    pub v1: i64,
    pub v2: i64,
    pub v3: i64,
}

/// The homogeneous promotion of a point.
pub open spec fn homogenous_spec(v: VectorPoint) -> HomogenousVectorPoint {
    HomogenousVectorPoint { v0: v.x, v1: v.y, v2: v.z, v3: FP_ONE }
}

/// The component-wise sum of two points.
pub open spec fn vec_add_spec(a: VectorPoint, b: VectorPoint) -> VectorPoint {
    VectorPoint {
        x: fx_add_spec(a.x as int, b.x as int) as i64,
        y: fx_add_spec(a.y as int, b.y as int) as i64,
        z: fx_add_spec(a.z as int, b.z as int) as i64,
    }
}

/// The 3-component fixed-point dot product of two homogeneous vectors;
/// the homogeneous coordinate takes no part.
pub open spec fn dot_spec(a: HomogenousVectorPoint, b: HomogenousVectorPoint) -> int {
    fx_dot3_spec(a.v0 as int, a.v1 as int, a.v2 as int, b.v0 as int, b.v1 as int, b.v2 as int)
}

impl HomogenousVectorPoint {
    /// Promote a point to homogeneous coordinates with weight 1.
    pub fn new(v: &VectorPoint) -> (r: Self)
        ensures
            r == homogenous_spec(*v),
    {
        HomogenousVectorPoint { v0: v.x, v1: v.y, v2: v.z, v3: FP_ONE }
    }
}

impl VectorPoint {
    /// A point from its three fixed-point coordinates.
    pub fn new(x: i64, y: i64, z: i64) -> (r: Self)
        ensures
            r == (VectorPoint { x, y, z }),
    {
        VectorPoint { x, y, z }
    }

    /// The demotion of a homogeneous vector: the first three components.
    pub fn from_homogenous(value: &HomogenousVectorPoint) -> (r: Self)
        ensures
            r == (VectorPoint { x: value.v0, y: value.v1, z: value.v2 }),
    {
        VectorPoint { x: value.v0, y: value.v1, z: value.v2 }
    }

    /// The point scaled uniformly by the fixed-point factor `scale`.
    /// The original convention multiplies the homogeneous row vector by
    /// the scale matrix from the right, which is application of the
    /// transposed matrix.
    pub fn scale(&self, scale: i64) -> (r: Self)
        ensures
            r == demote_spec(
                mat_apply_spec(
                    mat_transpose_spec(mat_scale_spec(scale)),
                    homogenous_spec(*self),
                ),
            ),
    {
        let p = HomogenousVectorPoint::new(self);
        let matrix = Matrix::new_scale_matrix(scale);
        let res = matrix.transpose().apply_h(&p);
        VectorPoint { x: res.v0, y: res.v1, z: res.v2 }
    }

    /// The point rotated about the Y axis by an integer degree.
    pub fn rotate(&self, degree: i32) -> (r: Self)
        ensures
            r == demote_spec(
                mat_apply_spec(mat_rotation_y_spec(degree as int), homogenous_spec(*self)),
            ),
    {
        let p = HomogenousVectorPoint::new(self);
        let matrix = Matrix::new_Y_rotation_matrix(degree);
        let res = matrix.apply_h(&p);
        VectorPoint { x: res.v0, y: res.v1, z: res.v2 }
    }

    /// The point translated by `translation`.
    pub fn translate(&self, translation: Self) -> (r: Self)
        ensures
            r == demote_spec(
                mat_apply_spec(mat_translation_spec(translation), homogenous_spec(*self)),
            ),
    {
        let p = HomogenousVectorPoint::new(self);
        let matrix = Matrix::new_translation_matrix(translation);
        let res = matrix.apply_h(&p);
        VectorPoint::from_homogenous(&res)
    }

    /// The component-wise (saturating) negation of the point.
    pub fn neg(&self) -> (r: VectorPoint)
        ensures
            r == vec_neg_spec(*self),
    {
        VectorPoint { x: fx_neg(self.x), y: fx_neg(self.y), z: fx_neg(self.z) }
    }

    /// Component-wise (saturating) vector addition.
    pub fn add(&self, rhs: &VectorPoint) -> (r: VectorPoint)
        ensures
            r == vec_add_spec(*self, *rhs),
    {
        VectorPoint {
            x: fx_add(self.x, rhs.x),
            y: fx_add(self.y, rhs.y),
            z: fx_add(self.z, rhs.z),
        }
    }
}

/// The component-wise (saturating) negation of a point.
pub open spec fn vec_neg_spec(v: VectorPoint) -> VectorPoint {
    VectorPoint {
        x: fx_neg_spec(v.x as int) as i64,
        y: fx_neg_spec(v.y as int) as i64,
        z: fx_neg_spec(v.z as int) as i64,
    }
}

/// The demotion of a homogeneous vector to its spatial components.
pub open spec fn demote_spec(h: HomogenousVectorPoint) -> VectorPoint {
    VectorPoint { x: h.v0, y: h.v1, z: h.v2 }
}

/// The 3-component dot product of the homogeneous forms of two points.
pub fn dot(v1: &VectorPoint, v2: &VectorPoint) -> (r: i64)
    ensures
        r as int == dot_spec(homogenous_spec(*v1), homogenous_spec(*v2)),
{
    fx_dot3(v1.x, v1.y, v1.z, v2.x, v2.y, v2.z)
}

/// The 3-component dot product of two homogeneous vectors.
pub fn dot_h(v1: &HomogenousVectorPoint, v2: &HomogenousVectorPoint) -> (r: i64)
    ensures
        r as int == dot_spec(*v1, *v2),
{
    fx_dot3(v1.v0, v1.v1, v1.v2, v2.v0, v2.v1, v2.v2)
}

} // verus!
