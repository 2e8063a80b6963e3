//! Camera, view frustum, projection, and the per-frame pipeline:
//! transform into camera space, cull and clip against the frustum,
//! project, and rasterize.
use vstd::prelude::*;
use crate::canvas::Canvas;
use crate::canvas::Point;
use crate::canvas::canvas_pix;
use crate::canvas::canvas_size;
use crate::canvas::viewport_to_canvas_spec;
use crate::fixed::FP_ONE;
use crate::fixed::lemma_round_div_exact;
use crate::fixed::round_div;
use crate::fixed::fx_div;
use crate::fixed::fx_div_spec;
use crate::fixed::fx_mul;
use crate::fixed::fx_mul_spec;
use crate::matrix::Matrix;
use crate::matrix::mat_apply_spec;
use crate::matrix::mat_mul_spec;
use crate::matrix::mat_translation_spec;
use crate::matrix::mat_transpose_spec;
use crate::model::Model;
use crate::model::ModelName;
use crate::model::Triangle;
use crate::model::model_wf_spec;
use crate::model::triangles_in_bounds_spec;
use crate::raster::draw_wireframe_triangle;
use crate::raster::wire_pix_spec;
use crate::vector::HomogenousVectorPoint;
use crate::vector::VectorPoint;
use crate::vector::demote_spec;
use crate::vector::vec_neg_spec;
use crate::vector::dot;
use crate::vector::dot_h;
use crate::vector::dot_spec;
use crate::vector::homogenous_spec;

verus! {

/// The z coordinate of the viewing plane, in fixed point (4 scene
/// units).
pub const PROJECTION_PLANE_Z: i64 = 262144;

/// A clip plane: the half-space `{ p : dot(normal, p) + distance > 0 }`
/// is "inside".
#[derive(Clone, Copy, Debug, PartialEq, Eq, Structural)]
pub struct Plane {
    pub normal: VectorPoint,
    pub distance: i64,
}

impl Plane {
    /// A plane from its normal and signed offset.
    pub fn new(normal: VectorPoint, distance: i64) -> (r: Self)
        ensures
            r == (Plane { normal, distance }),
    {
        Self { normal, distance }
    }
}

/// The camera: position, orthonormal orientation, and the clip planes
/// bounding the visible volume.
pub struct Camera {
    pub position: VectorPoint,
    pub orientation: Matrix,
    pub clipping_planes: Vec<Plane>,
}

impl Camera {
    /// A camera from its pose and clip planes.
    pub fn new(position: VectorPoint, orientation: Matrix, clipping_planes: Vec<Plane>) -> (r: Self)
        ensures
            r.position == position,
            r.orientation == orientation,
            r.clipping_planes == clipping_planes,
    {
        Self { position, orientation, clipping_planes }
    }
}

/// The canvas point a camera-space point projects to: perspective
/// division by z against the viewing plane, then the viewport-to-canvas
/// remap.
pub open spec fn project_vertex_spec(v: HomogenousVectorPoint) -> Point {
    viewport_to_canvas_spec(
        fx_div_spec(fx_mul_spec(v.v0 as int, PROJECTION_PLANE_Z as int), v.v2 as int),
        fx_div_spec(fx_mul_spec(v.v1 as int, PROJECTION_PLANE_Z as int), v.v2 as int),
    )
}

/// Project a camera-space point to canvas coordinates. The point must
/// lie strictly in front of the camera; clipping guarantees this for
/// every point that reaches projection.
pub fn project_vertex(v: &HomogenousVectorPoint) -> (r: Point)
    requires
        v.v2 > 0,
    ensures
        r == project_vertex_spec(*v),
{
    Point::viewport_to_canvas(
        fx_div(fx_mul(v.v0, PROJECTION_PLANE_Z), v.v2),
        fx_div(fx_mul(v.v1, PROJECTION_PLANE_Z), v.v2),
    )
}

/// Whether a camera-space point lies inside a plane's half-space:
/// `dot(normal, p) + distance > 0`.
pub open spec fn plane_inside_spec(plane: Plane, v: VectorPoint) -> bool {
    dot_spec(homogenous_spec(plane.normal), homogenous_spec(v)) + plane.distance > 0
}

/// Whether all three vertices of a triangle lie inside a plane's
/// half-space.
pub open spec fn tri_inside_spec(plane: Plane, t: Triangle, verts: Seq<VectorPoint>) -> bool {
    plane_inside_spec(plane, verts[t.vertex.0 as int]) && plane_inside_spec(
        plane,
        verts[t.vertex.1 as int],
    ) && plane_inside_spec(plane, verts[t.vertex.2 as int])
}

/// Clip one triangle against one plane: the triangle survives only when
/// all three of its vertices are inside the plane's half-space; with
/// one or two vertices inside it is discarded whole (edge splitting is
/// deliberately not performed).
pub fn clip_triangle(
    triangle: &Triangle,
    plane: &Plane,
    triangles: &mut Vec<Triangle>,
    vertices: &Vec<VectorPoint>,
)
    requires
        triangle.vertex.0 < vertices@.len(),
        triangle.vertex.1 < vertices@.len(),
        triangle.vertex.2 < vertices@.len(),
    ensures
        final(triangles)@ == if tri_inside_spec(*plane, *triangle, vertices@) {
            old(triangles)@.push(*triangle)
        } else {
            old(triangles)@
        },
{
    let v0 = vertices[triangle.vertex.0];
    let v1 = vertices[triangle.vertex.1];
    let v2 = vertices[triangle.vertex.2];

    let in0: bool = (dot(&plane.normal, &v0) as i128) + (plane.distance as i128) > 0;
    let in1: bool = (dot(&plane.normal, &v1) as i128) + (plane.distance as i128) > 0;
    let in2: bool = (dot(&plane.normal, &v2) as i128) + (plane.distance as i128) > 0;

    let mut in_count: u32 = 0;

    if in0 {
        in_count += 1;
    }
    if in1 {
        in_count += 1;
    }
    if in2 {
        in_count += 1;
    }

    match in_count {
        0 => {
            return ;
        },
        3 => {
            triangles.push(*triangle);
        },
        _ => {
            return ;
        },
    }
}

/// One triangle list clipped against one plane, in order: the
/// triangles whose three vertices are all inside the plane.
pub open spec fn clip_row_spec(plane: Plane, tris: Seq<Triangle>, verts: Seq<VectorPoint>) -> Seq<
    Triangle,
>
    decreases tris.len(),
{
    if tris.len() == 0 {
        Seq::empty()
    } else {
        let rest = clip_row_spec(plane, tris.drop_last(), verts);
        if tri_inside_spec(plane, tris.last(), verts) {
            rest.push(tris.last())
        } else {
            rest
        }
    }
}

/// A triangle list clipped against each plane in sequence.
pub open spec fn clip_all_spec(
    planes: Seq<Plane>,
    tris: Seq<Triangle>,
    verts: Seq<VectorPoint>,
) -> Seq<Triangle>
    decreases planes.len(),
{
    if planes.len() == 0 {
        tris
    } else {
        clip_row_spec(planes.last(), clip_all_spec(planes.drop_last(), tris, verts), verts)
    }
}

/// A vertex list transformed into camera space.
pub open spec fn tc_vertices_spec(model_verts: Seq<VectorPoint>, tr: Matrix) -> Seq<VectorPoint> {
    Seq::new(
        model_verts.len(),
        |i: int| demote_spec(mat_apply_spec(tr, homogenous_spec(model_verts[i]))),
    )
}

/// Whether the bounding sphere (transformed center, scaled radius) lies
/// entirely outside some clip plane, so the whole instance is dropped.
pub open spec fn culled_spec(
    planes: Seq<Plane>,
    center: HomogenousVectorPoint,
    radius_scaled: int,
) -> bool {
    exists|i: int|
        0 <= i < planes.len() && dot_spec(homogenous_spec((#[trigger] planes[i]).normal), center)
            + planes[i].distance < -radius_scaled
}

/// Transform a model's geometry into camera space and clip it against
/// the view frustum: cull the whole instance when its bounding sphere
/// is outside some plane, otherwise transform every vertex and keep
/// exactly the triangles whose vertices survive every plane.
pub fn transform_and_clip(
    clipping_planes: &Vec<Plane>,
    model: &Model,
    scale: i64,
    transform: Matrix,
) -> (r: Option<Model>)
    requires
        model_wf_spec(*model),
    ensures
        r is None <==> culled_spec(
            clipping_planes@,
            mat_apply_spec(transform, homogenous_spec(model.bounds_center)),
            fx_mul_spec(model.bounds_radius as int, scale as int),
        ),
        r is Some ==> {
            let m = r->0;
            &&& m.vertices@ == tc_vertices_spec(model.vertices@, transform)
            &&& m.triangles@ == clip_all_spec(
                clipping_planes@,
                model.triangles@,
                tc_vertices_spec(model.vertices@, transform),
            )
            &&& m.name == ModelName::CUBE
            &&& m.transform == model.transform
            &&& m.bounds_center == demote_spec(
                mat_apply_spec(transform, homogenous_spec(model.bounds_center)),
            )
            &&& m.bounds_radius == model.bounds_radius
            &&& model_wf_spec(m)
        },
{
    let center = transform.apply_h(&HomogenousVectorPoint::new(&model.bounds_center));
    let radius_scaled = fx_mul(model.bounds_radius, scale);

    let n_planes: usize = clipping_planes.len();
    let mut pi: usize = 0;
    while pi < n_planes
        invariant
            0 <= pi <= clipping_planes@.len(),
            n_planes == clipping_planes@.len(),
            center == mat_apply_spec(transform, homogenous_spec(model.bounds_center)),
            radius_scaled as int == fx_mul_spec(model.bounds_radius as int, scale as int),
            forall|i: int|
                0 <= i < pi ==> dot_spec(
                    homogenous_spec((#[trigger] clipping_planes@[i]).normal),
                    center,
                ) + clipping_planes@[i].distance >= -(radius_scaled as int),
        decreases n_planes - pi,
    {
        let p = &clipping_planes[pi];
        let d: i64 = dot_h(&HomogenousVectorPoint::new(&p.normal), &center);
        if (d as i128) + (p.distance as i128) < -(radius_scaled as i128) {
            return None;
        }
        pi = pi + 1;
    }

    let n_verts: usize = model.vertices.len();
    let mut vertices: Vec<VectorPoint> = Vec::new();
    let mut vi: usize = 0;
    while vi < n_verts
        invariant
            0 <= vi <= model.vertices@.len(),
            n_verts == model.vertices@.len(),
            vertices@.len() == vi,
            forall|j: int|
                0 <= j < vi ==> vertices@[j] == tc_vertices_spec(model.vertices@, transform)[j],
        decreases n_verts - vi,
    {
        vertices.push(transform.apply(&model.vertices[vi]));
        vi = vi + 1;
    }
    proof {
        assert(vertices@ =~= tc_vertices_spec(model.vertices@, transform));
    }

    let ghost tverts = tc_vertices_spec(model.vertices@, transform);

    let n_tris: usize = model.triangles.len();
    let mut triangles: Vec<Triangle> = Vec::new();
    let mut ti: usize = 0;
    while ti < n_tris
        invariant
            0 <= ti <= model.triangles@.len(),
            n_tris == model.triangles@.len(),
            triangles@.len() == ti,
            forall|j: int| 0 <= j < ti ==> triangles@[j] == model.triangles@[j],
        decreases n_tris - ti,
    {
        triangles.push(model.triangles[ti]);
        ti = ti + 1;
    }
    proof {
        assert(triangles@ =~= model.triangles@);
        assert(clip_all_spec(clipping_planes@.subrange(0, 0), model.triangles@, tverts)
            =~= model.triangles@);
        assert(triangles_in_bounds_spec(triangles@, vertices@.len() as int));
    }

    let mut pi: usize = 0;
    while pi < n_planes
        invariant
            0 <= pi <= clipping_planes@.len(),
            n_planes == clipping_planes@.len(),
            vertices@ == tverts,
            tverts.len() == model.vertices@.len(),
            triangles@ == clip_all_spec(
                clipping_planes@.subrange(0, pi as int),
                model.triangles@,
                tverts,
            ),
            triangles_in_bounds_spec(triangles@, vertices@.len() as int),
        decreases n_planes - pi,
    {
        let ghost tris_in = triangles@;
        let mut new_triangles: Vec<Triangle> = Vec::new();
        let n_cur: usize = triangles.len();
        let mut ci: usize = 0;
        while ci < n_cur
            invariant
                0 <= ci <= triangles@.len(),
                n_cur == triangles@.len(),
                pi < clipping_planes@.len(),
                triangles@ == tris_in,
                vertices@ == tverts,
                triangles_in_bounds_spec(triangles@, vertices@.len() as int),
                new_triangles@ == clip_row_spec(
                    clipping_planes@[pi as int],
                    tris_in.subrange(0, ci as int),
                    tverts,
                ),
                triangles_in_bounds_spec(new_triangles@, vertices@.len() as int),
            decreases n_cur - ci,
        {
            clip_triangle(&triangles[ci], &clipping_planes[pi], &mut new_triangles, &vertices);
            proof {
                assert(tris_in.subrange(0, ci as int + 1).drop_last() =~= tris_in.subrange(
                    0,
                    ci as int,
                ));
                assert(tris_in.subrange(0, ci as int + 1).last() == tris_in[ci as int]);
            }
            ci = ci + 1;
        }
        proof {
            assert(tris_in.subrange(0, tris_in.len() as int) =~= tris_in);
            assert(clipping_planes@.subrange(0, pi as int + 1).drop_last() =~= clipping_planes@
                .subrange(0, pi as int));
            assert(clipping_planes@.subrange(0, pi as int + 1).last() == clipping_planes@[pi as int]);
        }
        triangles = new_triangles;
        pi = pi + 1;
    }
    proof {
        assert(clipping_planes@.subrange(0, clipping_planes@.len() as int) =~= clipping_planes@);
    }

    let res = Model::new(
        ModelName::CUBE,
        vertices,
        triangles,
        model.transform,
        VectorPoint::from_homogenous(&center),
        model.bounds_radius,
    );
    proof {
        assert(res is Some);
    }
    res
}

/// The projected points of a camera-space vertex list. A vertex not
/// strictly in front of the camera projects to the canvas origin as a
/// placeholder; no triangle that survives clipping against a frustum
/// with a near plane references such a vertex.
pub open spec fn proj_seq_spec(verts: Seq<VectorPoint>) -> Seq<Point> {
    Seq::new(
        verts.len(),
        |i: int|
            if verts[i].z > 0 {
                project_vertex_spec(homogenous_spec(verts[i]))
            } else {
                Point { x: 0, y: 0 }
            },
    )
}

/// The pixel map after drawing the wireframes of a triangle list, in
/// order, through the projected points.
pub open spec fn instance_paint_spec(
    m: Map<(int, int), (u8, u8, u8)>,
    sz: (int, int),
    proj: Seq<Point>,
    tris: Seq<Triangle>,
) -> Map<(int, int), (u8, u8, u8)>
    decreases tris.len(),
{
    if tris.len() == 0 {
        m
    } else {
        let prev = instance_paint_spec(m, sz, proj, tris.drop_last());
        let t = tris.last();
        wire_pix_spec(
            prev,
            sz,
            proj[t.vertex.0 as int],
            proj[t.vertex.1 as int],
            proj[t.vertex.2 as int],
            t.color,
        )
    }
}

/// Whether every vertex referenced by some triangle of a model lies
/// strictly in front of the camera.
pub open spec fn model_proj_ok_spec(m: Model) -> bool {
    forall|i: int|
        0 <= i < m.triangles@.len() ==> m.vertices@[(#[trigger] m.triangles@[i]).vertex.0 as int].z
            > 0 && m.vertices@[m.triangles@[i].vertex.1 as int].z > 0
            && m.vertices@[m.triangles@[i].vertex.2 as int].z > 0
}

/// Draw one triangle's wireframe through the projected points.
pub fn render_triangle(canvas: &mut Canvas, triangle: &Triangle, projected: &Vec<Point>)
    requires
        triangle.vertex.0 < projected@.len(),
        triangle.vertex.1 < projected@.len(),
        triangle.vertex.2 < projected@.len(),
    ensures
        canvas_size(*final(canvas)) == canvas_size(*old(canvas)),
        canvas_pix(*final(canvas)) == wire_pix_spec(
            canvas_pix(*old(canvas)),
            canvas_size(*old(canvas)),
            projected@[triangle.vertex.0 as int],
            projected@[triangle.vertex.1 as int],
            projected@[triangle.vertex.2 as int],
            triangle.color,
        ),
{
    let p0 = projected[triangle.vertex.0];
    let p1 = projected[triangle.vertex.1];
    let p2 = projected[triangle.vertex.2];
    draw_wireframe_triangle(p0, p1, p2, triangle.color, canvas)
}

/// Project every vertex of a camera-space instance and draw the
/// wireframe of each of its triangles, in order.
pub fn render_instance(canvas: &mut Canvas, instance: &Model)
    requires
        model_wf_spec(*instance),
        model_proj_ok_spec(*instance),
    ensures
        canvas_size(*final(canvas)) == canvas_size(*old(canvas)),
        canvas_pix(*final(canvas)) == instance_paint_spec(
            canvas_pix(*old(canvas)),
            canvas_size(*old(canvas)),
            proj_seq_spec(instance.vertices@),
            instance.triangles@,
        ),
{
    let ghost m0 = canvas_pix(*canvas);
    let ghost sz0 = canvas_size(*canvas);

    let n_verts: usize = instance.vertices.len();
    let mut projected: Vec<Point> = Vec::new();
    let mut vi: usize = 0;
    while vi < n_verts
        invariant
            0 <= vi <= instance.vertices@.len(),
            n_verts == instance.vertices@.len(),
            projected@.len() == vi,
            forall|j: int|
                0 <= j < vi ==> projected@[j] == proj_seq_spec(instance.vertices@)[j],
        decreases n_verts - vi,
    {
        let v = instance.vertices[vi];
        if v.z > 0 {
            let v_homogenous = HomogenousVectorPoint::new(&v);
            projected.push(project_vertex(&v_homogenous));
        } else {
            projected.push(Point::new(0, 0));
        }
        vi = vi + 1;
    }
    proof {
        assert(projected@ =~= proj_seq_spec(instance.vertices@));
    }

    let n_tris: usize = instance.triangles.len();
    let mut ti: usize = 0;
    proof {
        assert(instance.triangles@.subrange(0, 0) =~= Seq::<Triangle>::empty());
    }
    while ti < n_tris
        invariant
            0 <= ti <= instance.triangles@.len(),
            n_tris == instance.triangles@.len(),
            projected@ == proj_seq_spec(instance.vertices@),
            projected@.len() == instance.vertices@.len(),
            model_wf_spec(*instance),
            canvas_size(*canvas) == sz0,
            canvas_pix(*canvas) == instance_paint_spec(
                m0,
                sz0,
                projected@,
                instance.triangles@.subrange(0, ti as int),
            ),
        decreases n_tris - ti,
    {
        render_triangle(canvas, &instance.triangles[ti], &projected);
        proof {
            assert(instance.triangles@.subrange(0, ti as int + 1).drop_last() =~= instance
                .triangles@.subrange(0, ti as int));
            assert(instance.triangles@.subrange(0, ti as int + 1).last() == instance.triangles@[ti
                as int]);
        }
        ti = ti + 1;
    }
    proof {
        assert(instance.triangles@.subrange(0, instance.triangles@.len() as int) =~= instance
            .triangles@);
    }
}

/// The world-to-camera matrix: the transpose of the camera's
/// orientation composed with translation by the negated camera
/// position.
pub open spec fn camera_matrix_spec(camera: Camera) -> Matrix {
    mat_mul_spec(
        mat_transpose_spec(camera.orientation),
        mat_translation_spec(vec_neg_spec(camera.position)),
    )
}

/// Whether a clip-plane list contains a near plane: normal along +z of
/// unit length, nonpositive offset. Points inside such a plane have
/// strictly positive z, so perspective division is well defined for
/// everything that survives clipping.
pub open spec fn near_plane_ok_spec(planes: Seq<Plane>) -> bool {
    exists|i: int|
        0 <= i < planes.len() && (#[trigger] planes[i]).normal == (VectorPoint {
            x: 0,
            y: 0,
            z: FP_ONE,
        }) && planes[i].distance <= 0
}

/// The pixel map after rendering a scene: each instance in order is
/// transformed, culled or clipped, and its surviving triangles drawn as
/// wireframes through projection.
pub open spec fn scene_paint_spec(
    m: Map<(int, int), (u8, u8, u8)>,
    sz: (int, int),
    camera: Camera,
    instances: Seq<Model>,
) -> Map<(int, int), (u8, u8, u8)>
    decreases instances.len(),
{
    if instances.len() == 0 {
        m
    } else {
        let prev = scene_paint_spec(m, sz, camera, instances.drop_last());
        let inst = instances.last();
        let tr = mat_mul_spec(camera_matrix_spec(camera), inst.transform_matrix);
        let center = mat_apply_spec(tr, homogenous_spec(inst.bounds_center));
        let rs = fx_mul_spec(inst.bounds_radius as int, inst.transform.scale as int);
        if culled_spec(camera.clipping_planes@, center, rs) {
            prev
        } else {
            let verts = tc_vertices_spec(inst.vertices@, tr);
            instance_paint_spec(
                prev,
                sz,
                proj_seq_spec(verts),
                clip_all_spec(camera.clipping_planes@, inst.triangles@, verts),
            )
        }
    }
}

/// Every triangle a clip row keeps is inside the plane and was in the
/// input list.
proof fn lemma_clip_row_props(plane: Plane, tris: Seq<Triangle>, verts: Seq<VectorPoint>)
    ensures
        forall|i: int|
            0 <= i < clip_row_spec(plane, tris, verts).len() ==> tri_inside_spec(
                plane,
                #[trigger] clip_row_spec(plane, tris, verts)[i],
                verts,
            ) && tris.contains(clip_row_spec(plane, tris, verts)[i]),
    decreases tris.len(),
{
    if tris.len() == 0 {
    } else {
        lemma_clip_row_props(plane, tris.drop_last(), verts);
        let out = clip_row_spec(plane, tris, verts);
        let rest = clip_row_spec(plane, tris.drop_last(), verts);
        assert(tris.contains(tris.last())) by {
            assert(tris[tris.len() - 1] == tris.last());
        }
        assert forall|i: int|
            0 <= i < out.len() implies tri_inside_spec(plane, #[trigger] out[i], verts)
            && tris.contains(out[i]) by {
            if i < rest.len() {
                assert(out[i] == rest[i]);
                assert(tris.drop_last().contains(rest[i]));
                let k = choose|k: int|
                    0 <= k < tris.drop_last().len() && tris.drop_last()[k] == rest[i];
                assert(tris[k] == rest[i]);
                assert(tris.contains(rest[i]));
            } else {
                assert(tri_inside_spec(plane, tris.last(), verts));
                assert(out[i] == tris.last());
            }
        }
    }
}

/// Every triangle that survives clipping against a plane list is inside
/// every plane of the list.
proof fn lemma_clip_all_inside(planes: Seq<Plane>, tris: Seq<Triangle>, verts: Seq<VectorPoint>)
    ensures
        forall|i: int, j: int|
            0 <= i < clip_all_spec(planes, tris, verts).len() && 0 <= j < planes.len()
                ==> tri_inside_spec(
                #[trigger] planes[j],
                #[trigger] clip_all_spec(planes, tris, verts)[i],
                verts,
            ),
    decreases planes.len(),
{
    if planes.len() == 0 {
    } else {
        let prev = clip_all_spec(planes.drop_last(), tris, verts);
        let out = clip_all_spec(planes, tris, verts);
        lemma_clip_all_inside(planes.drop_last(), tris, verts);
        lemma_clip_row_props(planes.last(), prev, verts);
        assert forall|i: int, j: int|
            0 <= i < out.len() && 0 <= j < planes.len() implies tri_inside_spec(
            #[trigger] planes[j],
            #[trigger] out[i],
            verts,
        ) by {
            if j == planes.len() - 1 {
                assert(tri_inside_spec(planes.last(), out[i], verts));
            } else {
                assert(prev.contains(out[i]));
                let k = choose|k: int| 0 <= k < prev.len() && prev[k] == out[i];
                assert(tri_inside_spec(planes.drop_last()[j], prev[k], verts));
            }
        }
    }
}

/// A point inside a near plane lies strictly in front of the camera.
proof fn lemma_near_plane_gives_z(plane: Plane, v: VectorPoint)
    requires
        plane.normal == (VectorPoint { x: 0, y: 0, z: FP_ONE }),
        plane.distance <= 0,
        plane_inside_spec(plane, v),
    ensures
        v.z > 0,
{
    assert(round_div(0 * (v.x as int), FP_ONE as int) == 0) by {
        lemma_round_div_exact(0, FP_ONE as int);
        assert(0 * (v.x as int) == 0 * (FP_ONE as int)) by (nonlinear_arith);
    }
    assert(round_div(0 * (v.y as int), FP_ONE as int) == 0) by {
        lemma_round_div_exact(0, FP_ONE as int);
        assert(0 * (v.y as int) == 0 * (FP_ONE as int)) by (nonlinear_arith);
    }
    assert(round_div((FP_ONE as int) * (v.z as int), FP_ONE as int) == v.z as int) by {
        lemma_round_div_exact(v.z as int, FP_ONE as int);
        assert((FP_ONE as int) * (v.z as int) == (v.z as int) * (FP_ONE as int))
            by (nonlinear_arith);
    }
}

/// A model whose triangles survived clipping against a plane list with
/// a near plane references only vertices strictly in front of the
/// camera.
proof fn lemma_clipped_proj_ok(
    planes: Seq<Plane>,
    tris_in: Seq<Triangle>,
    verts: Seq<VectorPoint>,
    m: Model,
)
    requires
        near_plane_ok_spec(planes),
        m.triangles@ == clip_all_spec(planes, tris_in, verts),
        m.vertices@ == verts,
        model_wf_spec(m),
    ensures
        model_proj_ok_spec(m),
{
    lemma_clip_all_inside(planes, tris_in, verts);
    let np = choose|np: int|
        0 <= np < planes.len() && (#[trigger] planes[np]).normal == (VectorPoint {
            x: 0,
            y: 0,
            z: FP_ONE,
        }) && planes[np].distance <= 0;
    assert forall|i: int|
        0 <= i < m.triangles@.len() implies m.vertices@[(#[trigger] m.triangles@[i]).vertex.0
        as int].z > 0 && m.vertices@[m.triangles@[i].vertex.1 as int].z > 0
        && m.vertices@[m.triangles@[i].vertex.2 as int].z > 0 by {
        let t = m.triangles@[i];
        assert(tri_inside_spec(planes[np], t, verts));
        lemma_near_plane_gives_z(planes[np], verts[t.vertex.0 as int]);
        lemma_near_plane_gives_z(planes[np], verts[t.vertex.1 as int]);
        lemma_near_plane_gives_z(planes[np], verts[t.vertex.2 as int]);
    }
}

/// Render a scene: for each instance in order, compose the camera
/// matrix with the instance's world matrix, cull or clip against the
/// frustum, and draw what survives as wireframes. The clip-plane list
/// must contain a near plane, which keeps every projected point
/// strictly in front of the camera.
pub fn render_scene(canvas: &mut Canvas, camera: &Camera, instances: &Vec<Model>)
    requires
        near_plane_ok_spec(camera.clipping_planes@),
        forall|i: int| 0 <= i < instances@.len() ==> model_wf_spec(#[trigger] instances@[i]),
    ensures
        canvas_size(*final(canvas)) == canvas_size(*old(canvas)),
        canvas_pix(*final(canvas)) == scene_paint_spec(
            canvas_pix(*old(canvas)),
            canvas_size(*old(canvas)),
            *camera,
            instances@,
        ),
{
    let ghost m0 = canvas_pix(*canvas);
    let ghost sz0 = canvas_size(*canvas);

    let neg_position = camera.position.neg();
    let camera_matrix = camera.orientation.transpose().multiply(
        &Matrix::new_translation_matrix(neg_position),
    );
    assert(camera_matrix == camera_matrix_spec(*camera));

    let n: usize = instances.len();
    let mut i: usize = 0;
    proof {
        assert(instances@.subrange(0, 0) =~= Seq::<Model>::empty());
    }
    while i < n
        invariant
            0 <= i <= instances@.len(),
            n == instances@.len(),
            camera_matrix == camera_matrix_spec(*camera),
            near_plane_ok_spec(camera.clipping_planes@),
            forall|k: int| 0 <= k < instances@.len() ==> model_wf_spec(#[trigger] instances@[k]),
            canvas_size(*canvas) == sz0,
            canvas_pix(*canvas) == scene_paint_spec(m0, sz0, *camera, instances@.subrange(0, i as int)),
        decreases n - i,
    {
        let inst = &instances[i];
        let transform = camera_matrix.multiply(&inst.transform_matrix);
        let clipped = transform_and_clip(
            &camera.clipping_planes,
            inst,
            inst.transform.scale,
            transform,
        );

        match clipped {
            Some(clipped_model) => {
                proof {
                    lemma_clipped_proj_ok(
                        camera.clipping_planes@,
                        inst.triangles@,
                        tc_vertices_spec(inst.vertices@, mat_mul_spec(
                            camera_matrix_spec(*camera),
                            inst.transform_matrix,
                        )),
                        clipped_model,
                    );
                }
                render_instance(canvas, &clipped_model);
            },
            None => {
            },
        }
        proof {
            assert(instances@.subrange(0, i as int + 1).drop_last() =~= instances@.subrange(
                0,
                i as int,
            ));
            assert(instances@.subrange(0, i as int + 1).last() == instances@[i as int]);
        }
        i = i + 1;
    }
    proof {
        assert(instances@.subrange(0, instances@.len() as int) =~= instances@);
    }
}

} // verus!
