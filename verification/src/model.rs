//! The geometry model: triangles over a shared vertex list, per-model
//! transforms, and models with their precomputed world matrices.
use vstd::prelude::*;
use crate::canvas::Color;
use crate::matrix::Matrix;
use crate::matrix::mat_mul_spec;
use crate::matrix::mat_rotation_y_spec;
use crate::matrix::mat_scale_spec;
use crate::matrix::mat_translation_spec;
use crate::vector::VectorPoint;

verus! {

/// A triangle: three indices into the owning model's vertex list, and a
/// flat color.
#[derive(Clone, Copy, Debug, PartialEq, Eq)]
pub struct Triangle {
    pub vertex: (usize, usize, usize),
    pub color: Color,
}

impl Triangle {
    /// A triangle from its vertex indices and color.
    pub fn new(vertex: (usize, usize, usize), color: Color) -> (r: Self)
        ensures
            r == (Triangle { vertex, color }),
    {
        Self { vertex, color }
    }
}

/// The kind tag of a model.
#[allow(non_camel_case_types)]
#[derive(Clone, Copy, Debug, PartialEq, Eq, Structural)]
pub enum ModelName {
    CUBE,
}

/// A model's placement: uniform scale (fixed-point, positive for a
/// well-formed scene), integer-degree rotation about the Y axis, and a
/// translation. Scale applies first, then rotation, then translation.
#[derive(Clone, Copy, Debug, PartialEq, Eq, Structural)]
pub struct Transform {
    pub scale: i64,
    pub rotation: i32,
    pub translation: VectorPoint,
}

impl Transform {
    /// A transform from its parts.
    pub fn new(scale: i64, rotation: i32, translation: VectorPoint) -> (r: Self)
        ensures
            r == (Transform { scale, rotation, translation }),
    {
        Self { scale, rotation, translation }
    }
}

/// The composed world matrix of a transform:
/// translation * (rotation * scale).
pub open spec fn transform_matrix_spec(t: Transform) -> Matrix {
    mat_mul_spec(
        mat_translation_spec(t.translation),
        mat_mul_spec(mat_rotation_y_spec(t.rotation as int), mat_scale_spec(t.scale)),
    )
}

/// Whether every triangle of a list only references vertices below
/// `n_vertices`.
pub open spec fn triangles_in_bounds_spec(triangles: Seq<Triangle>, n_vertices: int) -> bool {
    forall|i: int|
        0 <= i < triangles.len() ==> (#[trigger] triangles[i]).vertex.0 < n_vertices
            && triangles[i].vertex.1 < n_vertices && triangles[i].vertex.2 < n_vertices
}

/// A model: immutable shared geometry (vertices and triangles), its
/// placement, the world matrix derived from the placement, and a
/// bounding sphere for frustum culling.
pub struct Model {
    pub name: ModelName,
    pub vertices: Vec<VectorPoint>,
    pub triangles: Vec<Triangle>,
    pub transform: Transform,
    pub transform_matrix: Matrix,
    pub bounds_center: VectorPoint,
    pub bounds_radius: i64,
}

/// A well-formed model: every triangle references only existing
/// vertices.
pub open spec fn model_wf_spec(m: Model) -> bool {
    triangles_in_bounds_spec(m.triangles@, m.vertices@.len() as int)
}

impl Model {
    /// A model from its parts. The triangle list is validated against
    /// the vertex list at construction: a triangle referencing a vertex
    /// out of range is rejected, and no model is produced.
    pub fn new(
        name: ModelName,
        vertices: Vec<VectorPoint>,
        triangles: Vec<Triangle>,
        transform: Transform,
        bounds_center: VectorPoint,
        bounds_radius: i64,
    ) -> (r: Option<Model>)
        ensures
            r is Some <==> triangles_in_bounds_spec(triangles@, vertices@.len() as int),
            r is Some ==> {
                let m = r->0;
                &&& m.name == name
                &&& m.vertices == vertices
                &&& m.triangles == triangles
                &&& m.transform == transform
                &&& m.transform_matrix == transform_matrix_spec(transform)
                &&& m.bounds_center == bounds_center
                &&& m.bounds_radius == bounds_radius
                &&& model_wf_spec(m)
            },
    {
        let n: usize = vertices.len();
        let mut i: usize = 0;
        while i < triangles.len()
            invariant
                0 <= i <= triangles@.len(),
                n == vertices@.len(),
                triangles_in_bounds_spec(triangles@.subrange(0, i as int), n as int),
            decreases triangles@.len() - i,
        {
            let t = triangles[i];
            if t.vertex.0 >= n || t.vertex.1 >= n || t.vertex.2 >= n {
                proof {
                    assert(!triangles_in_bounds_spec(triangles@, vertices@.len() as int));
                }
                return None;
            }
            proof {
                assert(triangles@.subrange(0, i as int + 1).drop_last() =~= triangles@.subrange(
                    0,
                    i as int,
                ));
                assert(forall|j: int|
                    0 <= j < i as int + 1 ==> triangles@.subrange(0, i as int + 1)[j]
                        == triangles@[j]);
            }
            i = i + 1;
        }
        proof {
            assert(triangles@.subrange(0, triangles@.len() as int) =~= triangles@);
        }
        let transform_matrix = Matrix::new_translation_matrix(transform.translation).multiply(
            &Matrix::new_Y_rotation_matrix(transform.rotation).multiply(
                &Matrix::new_scale_matrix(transform.scale),
            ),
        );
        Some(
            Model {
                name,
                vertices,
                triangles,
                transform,
                transform_matrix,
                bounds_center,
                bounds_radius,
            },
        )
    }
}

} // verus!
