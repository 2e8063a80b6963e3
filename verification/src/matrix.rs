//! 4x4 transform matrices over fixed-point entries: canonical
//! constructors (identity, scale, rotation about Y, translation),
//! transpose, matrix product, and application to points.
use vstd::prelude::*;
use crate::fixed::FP_ONE;
use crate::fixed::fx_dot4;
use crate::fixed::fx_dot4_spec;
use crate::trig::cos_deg_spec;
use crate::trig::cos_fx;
use crate::trig::sin_deg_spec;
use crate::trig::sin_fx;
use crate::vector::HomogenousVectorPoint;
use crate::vector::VectorPoint;
use crate::vector::homogenous_spec;

verus! {

/// A 4x4 matrix, row-major: `mIJ` is the entry in row `I`, column `J`.
/// Entries are fixed-point values; the affine constructors put the
/// fixed-point unit in the lower-right corner.
#[derive(Clone, Copy, Debug, PartialEq, Eq, Structural)]
pub struct Matrix {
    pub m00: i64,
    pub m01: i64,
    pub m02: i64,
    pub m03: i64,
    pub m10: i64,
    pub m11: i64,
    pub m12: i64,
    pub m13: i64,
    pub m20: i64,
    pub m21: i64,
    pub m22: i64,
    pub m23: i64,
    pub m30: i64,
    pub m31: i64,
    pub m32: i64,
    pub m33: i64,
}

/// The all-zero matrix.
pub open spec fn mat_zero_spec() -> Matrix {
    Matrix {
        m00: 0,
        m01: 0,
        m02: 0,
        m03: 0,
        m10: 0,
        m11: 0,
        m12: 0,
        m13: 0,
        m20: 0,
        m21: 0,
        m22: 0,
        m23: 0,
        m30: 0,
        m31: 0,
        m32: 0,
        m33: 0,
    }
}

/// The base of every affine constructor: zero but for the homogeneous 1.
pub open spec fn mat_default_spec() -> Matrix {
    Matrix {
        m00: 0,
        m01: 0,
        m02: 0,
        m03: 0,
        m10: 0,
        m11: 0,
        m12: 0,
        m13: 0,
        m20: 0,
        m21: 0,
        m22: 0,
        m23: 0,
        m30: 0,
        m31: 0,
        m32: 0,
        m33: FP_ONE,
    }
}

/// The identity transform.
pub open spec fn mat_identity_spec() -> Matrix {
    Matrix {
        m00: FP_ONE,
        m01: 0,
        m02: 0,
        m03: 0,
        m10: 0,
        m11: FP_ONE,
        m12: 0,
        m13: 0,
        m20: 0,
        m21: 0,
        m22: FP_ONE,
        m23: 0,
        m30: 0,
        m31: 0,
        m32: 0,
        m33: FP_ONE,
    }
}

/// Uniform scaling by the fixed-point factor `s`.
pub open spec fn mat_scale_spec(s: i64) -> Matrix {
    Matrix {
        m00: s,
        m01: 0,
        m02: 0,
        m03: 0,
        m10: 0,
        m11: s,
        m12: 0,
        m13: 0,
        m20: 0,
        m21: 0,
        m22: s,
        m23: 0,
        m30: 0,
        m31: 0,
        m32: 0,
        m33: FP_ONE,
    }
}

/// Right-handed rotation about the Y axis, from the fixed-point cosine
/// `c` and sine `s` of the angle.
pub open spec fn mat_rotation_y_raw_spec(c: i64, s: i64) -> Matrix {
    Matrix {
        m00: c,
        m01: 0,
        m02: s,
        m03: 0,
        m10: 0,
        m11: FP_ONE,
        m12: 0,
        m13: 0,
        m20: (-(s as int)) as i64,
        m21: 0,
        m22: c,
        m23: 0,
        m30: 0,
        m31: 0,
        m32: 0,
        m33: FP_ONE,
    }
}

/// Right-handed rotation about the Y axis by an integer degree.
pub open spec fn mat_rotation_y_spec(degree: int) -> Matrix {
    mat_rotation_y_raw_spec(cos_deg_spec(degree) as i64, sin_deg_spec(degree) as i64)
}

/// Translation by the vector `t`.
pub open spec fn mat_translation_spec(t: VectorPoint) -> Matrix {
    Matrix {
        m00: FP_ONE,
        m01: 0,
        m02: 0,
        m03: t.x,
        m10: 0,
        m11: FP_ONE,
        m12: 0,
        m13: t.y,
        m20: 0,
        m21: 0,
        m22: FP_ONE,
        m23: t.z,
        m30: 0,
        m31: 0,
        m32: 0,
        m33: FP_ONE,
    }
}

/// The transpose.
pub open spec fn mat_transpose_spec(m: Matrix) -> Matrix {
    Matrix {
        m00: m.m00,
        m01: m.m10,
        m02: m.m20,
        m03: m.m30,
        m10: m.m01,
        m11: m.m11,
        m12: m.m21,
        m13: m.m31,
        m20: m.m02,
        m21: m.m12,
        m22: m.m22,
        m23: m.m32,
        m30: m.m03,
        m31: m.m13,
        m32: m.m23,
        m33: m.m33,
    }
}

/// The matrix product: entry `(i, j)` is the fixed-point dot product of
/// row `i` of `a` with column `j` of `b`.
pub open spec fn mat_mul_spec(a: Matrix, b: Matrix) -> Matrix {
    Matrix {
        m00: fx_dot4_spec(a.m00 as int, a.m01 as int, a.m02 as int, a.m03 as int, b.m00 as int, b.m10 as int, b.m20 as int, b.m30 as int) as i64,
        m01: fx_dot4_spec(a.m00 as int, a.m01 as int, a.m02 as int, a.m03 as int, b.m01 as int, b.m11 as int, b.m21 as int, b.m31 as int) as i64,
        m02: fx_dot4_spec(a.m00 as int, a.m01 as int, a.m02 as int, a.m03 as int, b.m02 as int, b.m12 as int, b.m22 as int, b.m32 as int) as i64,
        m03: fx_dot4_spec(a.m00 as int, a.m01 as int, a.m02 as int, a.m03 as int, b.m03 as int, b.m13 as int, b.m23 as int, b.m33 as int) as i64,
        m10: fx_dot4_spec(a.m10 as int, a.m11 as int, a.m12 as int, a.m13 as int, b.m00 as int, b.m10 as int, b.m20 as int, b.m30 as int) as i64,
        m11: fx_dot4_spec(a.m10 as int, a.m11 as int, a.m12 as int, a.m13 as int, b.m01 as int, b.m11 as int, b.m21 as int, b.m31 as int) as i64,
        m12: fx_dot4_spec(a.m10 as int, a.m11 as int, a.m12 as int, a.m13 as int, b.m02 as int, b.m12 as int, b.m22 as int, b.m32 as int) as i64,
        m13: fx_dot4_spec(a.m10 as int, a.m11 as int, a.m12 as int, a.m13 as int, b.m03 as int, b.m13 as int, b.m23 as int, b.m33 as int) as i64,
        m20: fx_dot4_spec(a.m20 as int, a.m21 as int, a.m22 as int, a.m23 as int, b.m00 as int, b.m10 as int, b.m20 as int, b.m30 as int) as i64,
        m21: fx_dot4_spec(a.m20 as int, a.m21 as int, a.m22 as int, a.m23 as int, b.m01 as int, b.m11 as int, b.m21 as int, b.m31 as int) as i64,
        m22: fx_dot4_spec(a.m20 as int, a.m21 as int, a.m22 as int, a.m23 as int, b.m02 as int, b.m12 as int, b.m22 as int, b.m32 as int) as i64,
        m23: fx_dot4_spec(a.m20 as int, a.m21 as int, a.m22 as int, a.m23 as int, b.m03 as int, b.m13 as int, b.m23 as int, b.m33 as int) as i64,
        m30: fx_dot4_spec(a.m30 as int, a.m31 as int, a.m32 as int, a.m33 as int, b.m00 as int, b.m10 as int, b.m20 as int, b.m30 as int) as i64,
        m31: fx_dot4_spec(a.m30 as int, a.m31 as int, a.m32 as int, a.m33 as int, b.m01 as int, b.m11 as int, b.m21 as int, b.m31 as int) as i64,
        m32: fx_dot4_spec(a.m30 as int, a.m31 as int, a.m32 as int, a.m33 as int, b.m02 as int, b.m12 as int, b.m22 as int, b.m32 as int) as i64,
        m33: fx_dot4_spec(a.m30 as int, a.m31 as int, a.m32 as int, a.m33 as int, b.m03 as int, b.m13 as int, b.m23 as int, b.m33 as int) as i64,
    }
}

/// Application to a homogeneous vector: component `i` is the fixed-point
/// dot product of row `i` with the vector.
pub open spec fn mat_apply_spec(m: Matrix, h: HomogenousVectorPoint) -> HomogenousVectorPoint {
    HomogenousVectorPoint {
        v0: fx_dot4_spec(m.m00 as int, m.m01 as int, m.m02 as int, m.m03 as int, h.v0 as int, h.v1 as int, h.v2 as int, h.v3 as int) as i64,
        v1: fx_dot4_spec(m.m10 as int, m.m11 as int, m.m12 as int, m.m13 as int, h.v0 as int, h.v1 as int, h.v2 as int, h.v3 as int) as i64,
        v2: fx_dot4_spec(m.m20 as int, m.m21 as int, m.m22 as int, m.m23 as int, h.v0 as int, h.v1 as int, h.v2 as int, h.v3 as int) as i64,
        v3: fx_dot4_spec(m.m30 as int, m.m31 as int, m.m32 as int, m.m33 as int, h.v0 as int, h.v1 as int, h.v2 as int, h.v3 as int) as i64,
    }
}

/// Application to a point, through homogeneous promotion and demotion.
pub open spec fn mat_apply_point_spec(m: Matrix, v: VectorPoint) -> VectorPoint {
    let h = mat_apply_spec(m, homogenous_spec(v));
    VectorPoint { x: h.v0, y: h.v1, z: h.v2 }
}

impl Matrix {
    /// Uniform scaling by the fixed-point factor `scale`.
    pub fn new_scale_matrix(scale: i64) -> (res: Self)
        ensures
            res == mat_scale_spec(scale),
    {
        let mut res = Matrix::default();
        res.m00 = scale;
        res.m11 = scale;
        res.m22 = scale;
        res
    }

    /// Right-handed rotation about the Y axis by an integer degree:
    /// cosine on the `(x, x)` and `(z, z)` entries, the sine and its
    /// negation on the `(x, z)` and `(z, x)` entries.
    #[allow(non_snake_case)]
    pub fn new_Y_rotation_matrix(degree: i32) -> (res: Self)
        ensures
            res == mat_rotation_y_spec(degree as int),
    {
        let c: i64 = cos_fx(degree);
        let s: i64 = sin_fx(degree);
        let mut res = Matrix::default();
        res.m00 = c;
        res.m20 = -s;
        res.m11 = FP_ONE;
        res.m02 = s;
        res.m22 = c;
        res
    }

    /// Translation by `translate`.
    pub fn new_translation_matrix(translate: VectorPoint) -> (res: Self)
        ensures
            res == mat_translation_spec(translate),
    {
        let mut res = Matrix::default();
        res.m03 = translate.x;
        res.m13 = translate.y;
        res.m23 = translate.z;
        res.m00 = FP_ONE;
        res.m11 = FP_ONE;
        res.m22 = FP_ONE;
        res
    }

    /// The transpose.
    pub fn transpose(&self) -> (res: Self)
        ensures
            res == mat_transpose_spec(*self),
    {
        Matrix {
            m00: self.m00,
            m01: self.m10,
            m02: self.m20,
            m03: self.m30,
            m10: self.m01,
            m11: self.m11,
            m12: self.m21,
            m13: self.m31,
            m20: self.m02,
            m21: self.m12,
            m22: self.m22,
            m23: self.m32,
            m30: self.m03,
            m31: self.m13,
            m32: self.m23,
            m33: self.m33,
        }
    }

    /// The all-zero matrix.
    pub fn zeroed() -> (res: Self)
        ensures
            res == mat_zero_spec(),
    {
        Matrix {
            m00: 0,
            m01: 0,
            m02: 0,
            m03: 0,
            m10: 0,
            m11: 0,
            m12: 0,
            m13: 0,
            m20: 0,
            m21: 0,
            m22: 0,
            m23: 0,
            m30: 0,
            m31: 0,
            m32: 0,
            m33: 0,
        }
    }

    /// The identity transform.
    pub fn identity() -> (res: Self)
        ensures
            res == mat_identity_spec(),
    {
        let mut res = Matrix::default();
        res.m00 = FP_ONE;
        res.m11 = FP_ONE;
        res.m22 = FP_ONE;
        res
    }

    /// The matrix product; multiplication is associative but not
    /// commutative, and the element-order convention is
    /// `(A*B)[i][j] = sum of A[i][k]*B[k][j]`.
    pub fn multiply(&self, rhs: &Matrix) -> (res: Self)
        ensures
            res == mat_mul_spec(*self, *rhs),
    {
        Matrix {
            m00: fx_dot4(self.m00, self.m01, self.m02, self.m03, rhs.m00, rhs.m10, rhs.m20, rhs.m30),
            m01: fx_dot4(self.m00, self.m01, self.m02, self.m03, rhs.m01, rhs.m11, rhs.m21, rhs.m31),
            m02: fx_dot4(self.m00, self.m01, self.m02, self.m03, rhs.m02, rhs.m12, rhs.m22, rhs.m32),
            m03: fx_dot4(self.m00, self.m01, self.m02, self.m03, rhs.m03, rhs.m13, rhs.m23, rhs.m33),
            m10: fx_dot4(self.m10, self.m11, self.m12, self.m13, rhs.m00, rhs.m10, rhs.m20, rhs.m30),
            m11: fx_dot4(self.m10, self.m11, self.m12, self.m13, rhs.m01, rhs.m11, rhs.m21, rhs.m31),
            m12: fx_dot4(self.m10, self.m11, self.m12, self.m13, rhs.m02, rhs.m12, rhs.m22, rhs.m32),
            m13: fx_dot4(self.m10, self.m11, self.m12, self.m13, rhs.m03, rhs.m13, rhs.m23, rhs.m33),
            m20: fx_dot4(self.m20, self.m21, self.m22, self.m23, rhs.m00, rhs.m10, rhs.m20, rhs.m30),
            m21: fx_dot4(self.m20, self.m21, self.m22, self.m23, rhs.m01, rhs.m11, rhs.m21, rhs.m31),
            m22: fx_dot4(self.m20, self.m21, self.m22, self.m23, rhs.m02, rhs.m12, rhs.m22, rhs.m32),
            m23: fx_dot4(self.m20, self.m21, self.m22, self.m23, rhs.m03, rhs.m13, rhs.m23, rhs.m33),
            m30: fx_dot4(self.m30, self.m31, self.m32, self.m33, rhs.m00, rhs.m10, rhs.m20, rhs.m30),
            m31: fx_dot4(self.m30, self.m31, self.m32, self.m33, rhs.m01, rhs.m11, rhs.m21, rhs.m31),
            m32: fx_dot4(self.m30, self.m31, self.m32, self.m33, rhs.m02, rhs.m12, rhs.m22, rhs.m32),
            m33: fx_dot4(self.m30, self.m31, self.m32, self.m33, rhs.m03, rhs.m13, rhs.m23, rhs.m33),
        }
    }

    /// Application to a homogeneous vector.
    pub fn apply_h(&self, rhs: &HomogenousVectorPoint) -> (res: HomogenousVectorPoint)
        ensures
            res == mat_apply_spec(*self, *rhs),
    {
        HomogenousVectorPoint {
            v0: fx_dot4(self.m00, self.m01, self.m02, self.m03, rhs.v0, rhs.v1, rhs.v2, rhs.v3),
            v1: fx_dot4(self.m10, self.m11, self.m12, self.m13, rhs.v0, rhs.v1, rhs.v2, rhs.v3),
            v2: fx_dot4(self.m20, self.m21, self.m22, self.m23, rhs.v0, rhs.v1, rhs.v2, rhs.v3),
            v3: fx_dot4(self.m30, self.m31, self.m32, self.m33, rhs.v0, rhs.v1, rhs.v2, rhs.v3),
        }
    }

    /// Application to a point: promote to homogeneous form, multiply,
    /// and keep the three spatial components.
    pub fn apply(&self, v: &VectorPoint) -> (res: VectorPoint)
        ensures
            res == mat_apply_point_spec(*self, *v),
    {
        let h = HomogenousVectorPoint::new(v);
        let r = self.apply_h(&h);
        VectorPoint::from_homogenous(&r)
    }
}

impl Default for Matrix {
    /// Zero but for the homogeneous 1 in the lower-right corner.
    fn default() -> (res: Self)
        ensures
            res == mat_default_spec(),
    {
        Matrix {
            m00: 0,
            m01: 0,
            m02: 0,
            m03: 0,
            m10: 0,
            m11: 0,
            m12: 0,
            m13: 0,
            m20: 0,
            m21: 0,
            m22: 0,
            m23: 0,
            m30: 0,
            m31: 0,
            m32: 0,
            m33: FP_ONE,
        }
    }
}

} // verus!
