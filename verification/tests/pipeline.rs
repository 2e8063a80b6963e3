use image::RgbImage;
use raster::canvas::Canvas;
use raster::canvas::Color;
use raster::fixed::FP_ONE;
use raster::matrix::Matrix;
use raster::model::Model;
use raster::model::ModelName;
use raster::model::Transform;
use raster::model::Triangle;
use raster::render::Camera;
use raster::render::Plane;
use raster::render::render_scene;
use raster::render::clip_triangle;
use raster::render::transform_and_clip;
use raster::vector::VectorPoint;

fn fx(v: i64) -> i64 {
    v * FP_ONE
}

// the fixed-point value nearest to 1/sqrt(2)
const S2: i64 = 46341;

fn cube_vertices() -> Vec<VectorPoint> {
    vec![
        VectorPoint::new(fx(1), fx(1), fx(1)),
        VectorPoint::new(fx(-1), fx(1), fx(1)),
        VectorPoint::new(fx(-1), fx(-1), fx(1)),
        VectorPoint::new(fx(1), fx(-1), fx(1)),
        VectorPoint::new(fx(1), fx(1), fx(-1)),
        VectorPoint::new(fx(-1), fx(1), fx(-1)),
        VectorPoint::new(fx(-1), fx(-1), fx(-1)),
        VectorPoint::new(fx(1), fx(-1), fx(-1)),
    ]
}

fn cube_triangles() -> Vec<Triangle> {
    let red = Color::new(255, 0, 0);
    let green = Color::new(0, 255, 0);
    let blue = Color::new(0, 0, 255);
    let yellow = Color::new(255, 255, 0);
    let purple = Color::new(128, 0, 128);
    let cyan = Color::new(0, 255, 255);
    vec![
        Triangle::new((0, 1, 2), red),
        Triangle::new((0, 2, 3), red),
        Triangle::new((4, 0, 3), green),
        Triangle::new((4, 3, 7), green),
        Triangle::new((5, 4, 7), blue),
        Triangle::new((5, 7, 6), blue),
        Triangle::new((1, 5, 6), yellow),
        Triangle::new((1, 6, 2), yellow),
        Triangle::new((4, 5, 1), purple),
        Triangle::new((4, 1, 0), purple),
        Triangle::new((2, 6, 7), cyan),
        Triangle::new((2, 7, 3), cyan),
    ]
}

// the fixed-point value nearest to sqrt(3), the cube's bounding radius
const SQRT3: i64 = 113512;

fn frustum_planes() -> Vec<Plane> {
    vec![
        Plane::new(VectorPoint::new(0, 0, FP_ONE), -FP_ONE), // near
        Plane::new(VectorPoint::new(S2, 0, S2), 0),          // left
        Plane::new(VectorPoint::new(-S2, 0, S2), 0),         // right
        Plane::new(VectorPoint::new(0, -S2, S2), 0),         // top
        Plane::new(VectorPoint::new(0, S2, S2), 0),          // bottom
    ]
}

#[test]
fn model_construction_rejects_out_of_range_vertex_indices() {
    let vertices = cube_vertices();
    let mut triangles = cube_triangles();
    triangles.push(Triangle::new((0, 1, 8), Color::new(1, 1, 1)));
    let m = Model::new(
        ModelName::CUBE,
        vertices,
        triangles,
        Transform::new(FP_ONE, 0, VectorPoint::new(0, 0, 0)),
        VectorPoint::new(0, 0, 0),
        SQRT3,
    );
    assert!(m.is_none());
}

#[test]
fn model_construction_accepts_valid_geometry() {
    let m = Model::new(
        ModelName::CUBE,
        cube_vertices(),
        cube_triangles(),
        Transform::new(FP_ONE, 0, VectorPoint::new(0, 0, fx(5))),
        VectorPoint::new(0, 0, 0),
        SQRT3,
    );
    assert!(m.is_some());
    let m = m.unwrap();
    assert_eq!(m.vertices.len(), 8);
    assert_eq!(m.triangles.len(), 12);
    // scale 1, rotation 0: the world matrix is the translation
    assert_eq!(m.transform_matrix, Matrix::new_translation_matrix(VectorPoint::new(0, 0, fx(5))));
}

#[test]
fn clip_keeps_a_triangle_with_all_vertices_inside() {
    let vertices = vec![
        VectorPoint::new(0, 0, fx(5)),
        VectorPoint::new(fx(1), 0, fx(5)),
        VectorPoint::new(0, fx(1), fx(5)),
    ];
    let near = Plane::new(VectorPoint::new(0, 0, FP_ONE), -FP_ONE);
    let t = Triangle::new((0, 1, 2), Color::new(9, 9, 9));
    let mut out: Vec<Triangle> = Vec::new();
    clip_triangle(&t, &near, &mut out, &vertices);
    assert_eq!(out.len(), 1);
    assert_eq!(out[0], t);
}

#[test]
fn clip_drops_a_triangle_with_any_vertex_outside() {
    // one vertex exactly on the near plane: not strictly inside
    let vertices = vec![
        VectorPoint::new(0, 0, FP_ONE),
        VectorPoint::new(fx(1), 0, fx(5)),
        VectorPoint::new(0, fx(1), fx(5)),
    ];
    let near = Plane::new(VectorPoint::new(0, 0, FP_ONE), -FP_ONE);
    let t = Triangle::new((0, 1, 2), Color::new(9, 9, 9));
    let mut out: Vec<Triangle> = Vec::new();
    clip_triangle(&t, &near, &mut out, &vertices);
    assert_eq!(out.len(), 0);

    // a vertex clearly behind the camera also drops the triangle whole
    let vertices2 = vec![
        VectorPoint::new(0, 0, fx(-3)),
        VectorPoint::new(fx(1), 0, fx(5)),
        VectorPoint::new(0, fx(1), fx(5)),
    ];
    let mut out2: Vec<Triangle> = Vec::new();
    clip_triangle(&t, &near, &mut out2, &vertices2);
    assert_eq!(out2.len(), 0);
}

#[test]
fn transform_and_clip_culls_an_instance_behind_the_camera() {
    let m = Model::new(
        ModelName::CUBE,
        cube_vertices(),
        cube_triangles(),
        Transform::new(FP_ONE, 0, VectorPoint::new(0, 0, fx(-10))),
        VectorPoint::new(0, 0, 0),
        SQRT3,
    )
    .unwrap();
    let planes = frustum_planes();
    let clipped = transform_and_clip(&planes, &m, FP_ONE, m.transform_matrix);
    assert!(clipped.is_none());
}

#[test]
fn transform_and_clip_keeps_a_cube_in_front_of_the_camera() {
    let m = Model::new(
        ModelName::CUBE,
        cube_vertices(),
        cube_triangles(),
        Transform::new(FP_ONE, 0, VectorPoint::new(0, 0, fx(5))),
        VectorPoint::new(0, 0, 0),
        SQRT3,
    )
    .unwrap();
    let planes = frustum_planes();
    let clipped = transform_and_clip(&planes, &m, FP_ONE, m.transform_matrix).unwrap();
    // every vertex is translated by (0, 0, 5)
    assert_eq!(clipped.vertices.len(), 8);
    assert_eq!(clipped.vertices[0], VectorPoint::new(fx(1), fx(1), fx(6)));
    assert_eq!(clipped.vertices[6], VectorPoint::new(fx(-1), fx(-1), fx(4)));
    // the whole cube is inside the frustum: every triangle survives
    assert_eq!(clipped.triangles.len(), 12);
}

#[test]
fn rendering_a_unit_cube_draws_a_centered_silhouette() {
    let mut canvas = Canvas { img: RgbImage::new(1510, 1510) };
    let camera = Camera::new(VectorPoint::new(0, 0, 0), Matrix::identity(), frustum_planes());
    let m = Model::new(
        ModelName::CUBE,
        cube_vertices(),
        cube_triangles(),
        Transform::new(FP_ONE, 0, VectorPoint::new(0, 0, fx(5))),
        VectorPoint::new(0, 0, 0),
        SQRT3,
    )
    .unwrap();
    let instances = vec![m];
    render_scene(&mut canvas, &camera, &instances);

    let mut min_x = u32::MAX;
    let mut max_x = 0u32;
    let mut min_y = u32::MAX;
    let mut max_y = 0u32;
    let mut count = 0u64;
    for (x, y, p) in canvas.img.enumerate_pixels() {
        if p.0 != [0, 0, 0] {
            count += 1;
            min_x = min_x.min(x);
            max_x = max_x.max(x);
            min_y = min_y.min(y);
            max_y = max_y.max(y);
        }
    }
    // the wireframe is non-empty and strictly inside the canvas,
    // centered around the buffer center
    assert!(count > 100);
    assert!(min_x >= 430 && max_x <= 1070);
    assert!(min_y >= 430 && max_y <= 1070);
    assert!(min_x < 750 && max_x > 750);
    assert!(min_y < 750 && max_y > 750);
}
