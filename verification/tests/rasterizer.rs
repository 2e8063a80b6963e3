use image::RgbImage;
use raster::canvas::Canvas;
use raster::canvas::Color;
use raster::canvas::Point;
use raster::canvas::put_pixel;
use raster::raster::draw_filled_triangle;
use raster::raster::draw_line;
use raster::raster::draw_wireframe_triangle;
use raster::raster::interpolate;
use raster::raster::shade;
use raster::raster::triangle_spans;

fn new_canvas() -> Canvas {
    Canvas { img: RgbImage::new(1510, 1510) }
}

fn lit_pixels(c: &Canvas) -> Vec<(u32, u32, [u8; 3])> {
    let mut out = Vec::new();
    for (x, y, p) in c.img.enumerate_pixels() {
        if p.0 != [0, 0, 0] {
            out.push((x, y, p.0));
        }
    }
    out
}

#[test]
fn interpolate_degenerate_range_returns_single_value() {
    assert_eq!(interpolate(3, 7, 3, 99), vec![7]);
    assert_eq!(interpolate(-5, -2, -5, 11), vec![-2]);
}

#[test]
fn interpolate_produces_one_sample_per_step_with_exact_slope() {
    let values = interpolate(0, 0, 10, 5);
    assert_eq!(values.len(), 11);
    assert_eq!(values[0], 0);
    assert_eq!(values[10], 5);
    // slope 1/2, rounded to nearest with ties away from zero
    assert_eq!(values, vec![0, 1, 1, 2, 2, 3, 3, 4, 4, 5, 5]);
}

#[test]
fn interpolate_endpoints_are_exact() {
    let values = interpolate(-3, 17, 4, -9);
    assert_eq!(values.len(), 8);
    assert_eq!(values[0], 17);
    assert_eq!(values[7], -9);
}

#[test]
fn put_pixel_writes_at_center_offset_y_up() {
    let mut c = new_canvas();
    put_pixel(&mut c, Color::new(10, 20, 30), Point::new(0, 0));
    assert_eq!(c.img.get_pixel(750, 750).0, [10, 20, 30]);
    // y grows upward on the canvas, downward in the buffer
    put_pixel(&mut c, Color::new(1, 2, 3), Point::new(3, 2));
    assert_eq!(c.img.get_pixel(753, 748).0, [1, 2, 3]);
}

#[test]
fn put_pixel_drops_out_of_range_writes() {
    let mut c = new_canvas();
    put_pixel(&mut c, Color::new(10, 20, 30), Point::new(751, 0));
    put_pixel(&mut c, Color::new(10, 20, 30), Point::new(0, -751));
    assert_eq!(lit_pixels(&c).len(), 0);
}

#[test]
fn put_pixel_respects_small_buffers() {
    let mut c = Canvas { img: RgbImage::new(10, 10) };
    // the center-offset coordinates exceed a 10x10 buffer, so nothing is written
    put_pixel(&mut c, Color::new(9, 9, 9), Point::new(0, 0));
    for (_, _, p) in c.img.enumerate_pixels() {
        assert_eq!(p.0, [0, 0, 0]);
    }
}

#[test]
fn draw_line_horizontal_lights_exact_pixels() {
    let mut c = new_canvas();
    draw_line(&mut c, Point::new(0, 0), Point::new(5, 0), Color::new(255, 0, 0));
    let lit = lit_pixels(&c);
    assert_eq!(lit.len(), 5);
    for x in 0..5u32 {
        assert_eq!(c.img.get_pixel(750 + x, 750).0, [255, 0, 0]);
    }
    // the end column is exclusive
    assert_eq!(c.img.get_pixel(755, 750).0, [0, 0, 0]);
}

#[test]
fn draw_line_is_symmetric_in_its_endpoints() {
    let a = Point::new(1, 2);
    let b = Point::new(7, -3);
    let mut c1 = new_canvas();
    let mut c2 = new_canvas();
    draw_line(&mut c1, a, b, Color::new(0, 255, 0));
    draw_line(&mut c2, b, a, Color::new(0, 255, 0));
    assert_eq!(c1.img, c2.img);

    let steep_a = Point::new(-2, 9);
    let steep_b = Point::new(0, -14);
    let mut c3 = new_canvas();
    let mut c4 = new_canvas();
    draw_line(&mut c3, steep_a, steep_b, Color::new(0, 0, 255));
    draw_line(&mut c4, steep_b, steep_a, Color::new(0, 0, 255));
    assert_eq!(c3.img, c4.img);
}

#[test]
fn draw_line_coincident_endpoints_draw_nothing() {
    let mut c = new_canvas();
    draw_line(&mut c, Point::new(4, 4), Point::new(4, 4), Color::new(1, 2, 3));
    assert_eq!(lit_pixels(&c).len(), 0);
}

#[test]
fn wireframe_triangle_draws_three_edges() {
    let mut c = new_canvas();
    draw_wireframe_triangle(
        Point::new(0, 0),
        Point::new(10, 0),
        Point::new(0, 10),
        Color::new(128, 0, 128),
        &mut c,
    );
    let lit = lit_pixels(&c);
    assert!(!lit.is_empty());
    // both edge ends along the axes are lit; canvas y-up maps the
    // upper edge to smaller buffer rows
    assert_eq!(c.img.get_pixel(750, 750).0, [128, 0, 128]);
    assert_eq!(c.img.get_pixel(759, 750).0, [128, 0, 128]);
    assert_eq!(c.img.get_pixel(750, 741).0, [128, 0, 128]);
}

#[test]
fn shade_scales_each_channel_per_mille() {
    let c = shade(Color::new(200, 100, 50), 500);
    assert_eq!((c.r, c.g, c.b), (100, 50, 25));
    let full = shade(Color::new(200, 100, 50), 1000);
    assert_eq!((full.r, full.g, full.b), (200, 100, 50));
    let off = shade(Color::new(200, 100, 50), 0);
    assert_eq!((off.r, off.g, off.b), (0, 0, 0));
}

#[test]
fn triangle_spans_visit_one_scanline_per_row() {
    let spans = triangle_spans(
        Point::new(0, 0),
        Point::new(2, 3),
        Point::new(4, 10),
        0,
        400,
        900,
    );
    assert_eq!(spans.y_top, 0);
    assert_eq!(spans.y_bot, 10);
    assert_eq!(spans.x_left.len(), 11);
    assert_eq!(spans.x_right.len(), 11);
    assert_eq!(spans.h_left.len(), 11);
    assert_eq!(spans.h_right.len(), 11);
}

#[test]
fn filled_triangle_paints_its_interior() {
    let mut c = new_canvas();
    draw_filled_triangle(
        Point::new(0, 0),
        Point::new(20, 0),
        Point::new(0, 20),
        Color::new(200, 100, 50),
        1000,
        1000,
        1000,
        &mut c,
    );
    let lit = lit_pixels(&c);
    assert!(!lit.is_empty());
    // with full intensity at every vertex the flat color is painted
    assert_eq!(c.img.get_pixel(752, 745).0, [200, 100, 50]);
    // every painted pixel stays within the triangle's bounding box
    // (canvas y-up: rows 0..=20 map to buffer rows 730..=750)
    for (x, y, _) in lit {
        assert!((750..=770).contains(&x));
        assert!((730..=750).contains(&y));
    }
}

#[test]
fn filled_triangle_shading_darkens_toward_low_intensity() {
    let mut c = new_canvas();
    draw_filled_triangle(
        Point::new(0, 0),
        Point::new(40, 0),
        Point::new(0, 40),
        Color::new(200, 200, 200),
        0,
        1000,
        1000,
        &mut c,
    );
    let lit = lit_pixels(&c);
    assert!(!lit.is_empty());
    // some pixel is painted at reduced brightness
    assert!(lit.iter().any(|(_, _, p)| p[0] > 0 && p[0] < 200));
}
