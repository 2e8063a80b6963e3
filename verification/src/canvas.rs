//! The pixel sink: canvas coordinates, colors, and bounds-checked pixel
//! writes into an `image` RGB buffer.
//!
//! Callers address pixels in a center-origin coordinate system; this
//! module remaps them to buffer coordinates and silently drops any write
//! that falls outside either the canvas bounds or the buffer itself.
use vstd::prelude::*;
use crate::fixed::fx_mul;
use crate::fixed::fx_mul_spec;

verus! {

/// Margin added to the buffer beyond the nominal canvas size.
pub const THRESHOLD_CANVAS: i32 = 10;

/// Nominal canvas width in pixels.
pub const CANVAS_WIDTH: i32 = 1500;

/// Nominal canvas height in pixels.
pub const CANVAS_HEIGHT: i32 = 1500;

/// Size of the viewport in scene units; the canvas spans this many
/// units of the viewing plane.
pub const VIEWPORT_SIZE: i64 = 5;

/// An RGB color, one byte per channel.
#[derive(Clone, Copy, Debug, PartialEq, Eq, Structural)]
pub struct Color {
    pub r: u8,
    pub g: u8,
    pub b: u8,
}

impl Color {
    /// A color from its three channels.
    pub fn new(r: u8, g: u8, b: u8) -> (c: Color)
        ensures
            c == (Color { r, g, b }),
    {
        Color { r, g, b }
    }
}

/// The channel triple of a color, as stored in the pixel map.
pub open spec fn color_rgb_spec(c: Color) -> (u8, u8, u8) {
    (c.r, c.g, c.b)
}

/// A point on the canvas, in integer pixel coordinates with the origin
/// at the canvas center and y growing upward.
#[derive(Clone, Copy, Debug, PartialEq, Eq, Structural)]
pub struct Point {
    pub x: i32,
    pub y: i32,
}

impl Point {
    /// A point from its coordinates.
    pub fn new(x: i32, y: i32) -> (r: Self)
        ensures
            r == (Point { x, y }),
    {
        Point { x, y }
    }

    /// Map a point on the viewing plane (fixed-point viewport units) to
    /// integer canvas pixel coordinates.
    pub fn viewport_to_canvas(x: i64, y: i64) -> (r: Self)
        ensures
            r == viewport_to_canvas_spec(x as int, y as int),
    {
        let res = Point {
            x: sat_i32(fx_mul(x, (CANVAS_WIDTH as i64) / VIEWPORT_SIZE)),
            y: sat_i32(fx_mul(y, (CANVAS_HEIGHT as i64) / VIEWPORT_SIZE)),
        };
        res
    }

    /// Exchange two points in place.
    pub fn swap(a: &mut Point, b: &mut Point)
        ensures
            *final(a) == *old(b),
            *final(b) == *old(a),
    {
        let t: Point = *a;
        *a = *b;
        *b = t;
    }
}

/// A mathematical value saturated into the `i32` range, as a Rust
/// float-to-integer cast would do.
pub open spec fn i32_sat_spec(v: int) -> int {
    if v > 0x7fff_ffff {
        0x7fff_ffff
    } else if v < -0x8000_0000 {
        -0x8000_0000
    } else {
        v
    }
}

/// A viewport coordinate (fixed-point) mapped to a canvas pixel
/// coordinate: scaled by canvas size over viewport size, rounded to the
/// nearest pixel, and saturated into the pixel coordinate range.
pub open spec fn viewport_to_canvas_spec(x: int, y: int) -> Point {
    Point {
        x: i32_sat_spec(fx_mul_spec(x, CANVAS_WIDTH as int / VIEWPORT_SIZE as int)) as i32,
        y: i32_sat_spec(fx_mul_spec(y, CANVAS_HEIGHT as int / VIEWPORT_SIZE as int)) as i32,
    }
}

/// Saturate a fixed-point value into the `i32` range.
fn sat_i32(v: i64) -> (r: i32)
    ensures
        r as int == i32_sat_spec(v as int),
{
    if v > 0x7fff_ffff {
        0x7fff_ffff
    } else if v < -0x8000_0000 {
        -0x8000_0000
    } else {
        v as i32
    }
}

/// The pixel sink: an RGB image buffer from the `image` crate. Opaque
/// to the verifier; its contents are reflected by `canvas_pix` and
/// `canvas_size`, and reached only through the wrappers below. The
/// buffer itself is exposed so that unverified callers can persist it.
#[verifier::external_body]
pub struct Canvas {
    pub img: image::RgbImage,
}

/// The pixel contents of a canvas: a map from buffer coordinates to
/// channel triples.
pub uninterp spec fn canvas_pix(canvas: Canvas) -> Map<(int, int), (u8, u8, u8)>;

/// The dimensions (width, height) a canvas's buffer was made with.
pub uninterp spec fn canvas_size(canvas: Canvas) -> (int, int);

/// Relies on `image::ImageBuffer::put_pixel`: replaces the pixel at
/// `(x, y)` and nothing else; panics when the coordinates lie outside
/// the buffer, so they are required to lie inside.
#[verifier::external_body]
fn canvas_put(canvas: &mut Canvas, x: u32, y: u32, color: Color)
    requires
        (x as int) < canvas_size(*old(canvas)).0,
        (y as int) < canvas_size(*old(canvas)).1,
    ensures
        canvas_size(*final(canvas)) == canvas_size(*old(canvas)),
        canvas_pix(*final(canvas)) == canvas_pix(*old(canvas)).insert(
            (x as int, y as int),
            color_rgb_spec(color),
        ),
{
    canvas.img.put_pixel(x, y, image::Rgb([color.r, color.g, color.b]));
}

/// Relies on `image::ImageBuffer::width`.
#[verifier::external_body]
pub(crate) fn canvas_width(canvas: &Canvas) -> (w: u32)
    ensures
        w as int == canvas_size(*canvas).0,
{
    canvas.img.width()
}

/// Relies on `image::ImageBuffer::height`.
#[verifier::external_body]
pub(crate) fn canvas_height(canvas: &Canvas) -> (h: u32)
    ensures
        h as int == canvas_size(*canvas).1,
{
    canvas.img.height()
}

/// Whether a center-origin point lies within the nominal canvas bounds.
pub open spec fn in_canvas_range_spec(p: Point) -> bool {
    -(CANVAS_WIDTH as int / 2) <= p.x && p.x <= CANVAS_WIDTH as int / 2
        && -(CANVAS_HEIGHT as int / 2) <= p.y && p.y <= CANVAS_HEIGHT as int / 2
}

/// The buffer coordinates of a center-origin point: x is offset to the
/// buffer center, y is flipped, so that canvas space is y-up while the
/// buffer's origin is its top-left corner.
pub open spec fn buffer_coord_spec(p: Point) -> (int, int) {
    (p.x + CANVAS_WIDTH as int / 2, CANVAS_HEIGHT as int / 2 - p.y)
}

/// Whether a buffer coordinate lies within a buffer of size `sz`.
pub open spec fn in_buffer_spec(k: (int, int), sz: (int, int)) -> bool {
    0 <= k.0 && k.0 < sz.0 && 0 <= k.1 && k.1 < sz.1
}

/// The pixel map after one bounds-checked write: unchanged when the
/// point falls outside the canvas bounds or the buffer, else one entry
/// replaced.
pub open spec fn put_pixel_pix_spec(
    m: Map<(int, int), (u8, u8, u8)>,
    sz: (int, int),
    color: Color,
    p: Point,
) -> Map<(int, int), (u8, u8, u8)> {
    if in_canvas_range_spec(p) && in_buffer_spec(buffer_coord_spec(p), sz) {
        m.insert(buffer_coord_spec(p), color_rgb_spec(color))
    } else {
        m
    }
}

/// The center-origin, y-up point a buffer coordinate addresses; the
/// inverse of `buffer_coord_spec`.
pub open spec fn center_of_spec(k: (int, int)) -> (int, int) {
    (k.0 - CANVAS_WIDTH as int / 2, CANVAS_HEIGHT as int / 2 - k.1)
}

/// Whether a center-origin coordinate pair lies within the nominal
/// canvas bounds.
pub open spec fn in_canvas_range_pair_spec(c: (int, int)) -> bool {
    -(CANVAS_WIDTH as int / 2) <= c.0 && c.0 <= CANVAS_WIDTH as int / 2
        && -(CANVAS_HEIGHT as int / 2) <= c.1 && c.1 <= CANVAS_HEIGHT as int / 2
}

/// Whether a buffer key receives paint under a lit predicate over
/// center-origin points: it must lie in the buffer, within the nominal
/// canvas bounds, and be lit.
pub open spec fn paints_spec(sz: (int, int), lit: spec_fn((int, int)) -> bool, k: (int, int)) -> bool {
    in_buffer_spec(k, sz) && in_canvas_range_pair_spec(center_of_spec(k)) && lit(center_of_spec(k))
}

/// The pixel map after painting: every painted key holds its value,
/// every other key is unchanged.
pub open spec fn painted_spec(
    m: Map<(int, int), (u8, u8, u8)>,
    sz: (int, int),
    lit: spec_fn((int, int)) -> bool,
    val: spec_fn((int, int)) -> (u8, u8, u8),
) -> Map<(int, int), (u8, u8, u8)> {
    Map::new(
        |k: (int, int)| m.dom().contains(k) || paints_spec(sz, lit, k),
        |k: (int, int)|
            if paints_spec(sz, lit, k) {
                val(center_of_spec(k))
            } else {
                m[k]
            },
    )
}

/// Painting an unlit predicate leaves the pixel map unchanged.
pub proof fn lemma_painted_empty(
    m: Map<(int, int), (u8, u8, u8)>,
    sz: (int, int),
    lit: spec_fn((int, int)) -> bool,
    val: spec_fn((int, int)) -> (u8, u8, u8),
)
    requires
        forall|c: (int, int)| #![trigger lit(c)] !lit(c),
    ensures
        painted_spec(m, sz, lit, val) == m,
{
    assert(painted_spec(m, sz, lit, val) =~= m);
}

/// Two pointwise-equal paintings produce the same pixel map.
pub proof fn lemma_painted_congruence(
    m: Map<(int, int), (u8, u8, u8)>,
    sz: (int, int),
    lit1: spec_fn((int, int)) -> bool,
    lit2: spec_fn((int, int)) -> bool,
    val1: spec_fn((int, int)) -> (u8, u8, u8),
    val2: spec_fn((int, int)) -> (u8, u8, u8),
)
    requires
        forall|c: (int, int)| #![trigger lit1(c)] #![trigger lit2(c)] (lit1(c) <==> lit2(c)),
        forall|c: (int, int)| #![trigger lit1(c)] (lit1(c) ==> val1(c) == val2(c)),
    ensures
        painted_spec(m, sz, lit1, val1) == painted_spec(m, sz, lit2, val2),
{
    assert(painted_spec(m, sz, lit1, val1) =~= painted_spec(m, sz, lit2, val2));
}

/// Extending a painting by one point is the same as one further
/// bounds-checked write of that point's value.
pub proof fn lemma_painted_extend(
    m: Map<(int, int), (u8, u8, u8)>,
    sz: (int, int),
    lit: spec_fn((int, int)) -> bool,
    lit2: spec_fn((int, int)) -> bool,
    val: spec_fn((int, int)) -> (u8, u8, u8),
    p: Point,
    sc: Color,
)
    requires
        forall|c: (int, int)| #![trigger lit2(c)] #![trigger lit(c)] (lit2(c) <==> lit(c) || c == (p.x as int, p.y as int)),
        color_rgb_spec(sc) == val((p.x as int, p.y as int)),
    ensures
        painted_spec(m, sz, lit2, val) == put_pixel_pix_spec(painted_spec(m, sz, lit, val), sz, sc, p),
{
    let k0 = buffer_coord_spec(p);
    let c0 = (p.x as int, p.y as int);
    assert(center_of_spec(k0) == c0);
    assert forall|k: (int, int)| k != k0 implies center_of_spec(k) != c0 by {
    }
    if in_canvas_range_spec(p) && in_buffer_spec(k0, sz) {
        let lhs = painted_spec(m, sz, lit2, val);
        let rhs = painted_spec(m, sz, lit, val).insert(k0, color_rgb_spec(sc));
        assert(lit2(c0));
        assert(paints_spec(sz, lit2, k0));
        assert forall|k: (int, int)| lhs.dom().contains(k) <==> rhs.dom().contains(k) by {
            if k != k0 {
                assert(center_of_spec(k) != c0);
                assert(lit2(center_of_spec(k)) <==> lit(center_of_spec(k)));
            } else {
                assert(lhs.dom().contains(k0) && rhs.dom().contains(k0));
            }
        }
        assert forall|k: (int, int)| lhs.dom().contains(k) implies lhs[k] == rhs[k] by {
            if k != k0 {
                assert(center_of_spec(k) != c0);
                assert(lit2(center_of_spec(k)) <==> lit(center_of_spec(k)));
            } else {
                assert(lhs[k0] == val(c0));
                assert(rhs[k0] == color_rgb_spec(sc));
            }
        }
        assert(lhs =~= rhs);
    } else {
        let lhs = painted_spec(m, sz, lit2, val);
        let rhs = painted_spec(m, sz, lit, val);
        assert forall|k: (int, int)| lhs.dom().contains(k) <==> rhs.dom().contains(k) by {
            if k != k0 {
                assert(center_of_spec(k) != c0);
                assert(lit2(center_of_spec(k)) <==> lit(center_of_spec(k)));
            } else {
                assert(!paints_spec(sz, lit2, k) && !paints_spec(sz, lit, k));
            }
        }
        assert forall|k: (int, int)| lhs.dom().contains(k) implies lhs[k] == rhs[k] by {
            if k != k0 {
                assert(center_of_spec(k) != c0);
                assert(lit2(center_of_spec(k)) <==> lit(center_of_spec(k)));
            } else {
                assert(!paints_spec(sz, lit2, k) && !paints_spec(sz, lit, k));
            }
        }
        assert(lhs =~= rhs);
    }
}

/// Write one pixel at a center-origin, y-up point; out-of-bounds
/// writes are silently dropped, never an error.
pub fn put_pixel(canvas: &mut Canvas, color: Color, coord: Point)
    ensures
        canvas_size(*final(canvas)) == canvas_size(*old(canvas)),
        canvas_pix(*final(canvas)) == put_pixel_pix_spec(
            canvas_pix(*old(canvas)),
            canvas_size(*old(canvas)),
            color,
            coord,
        ),
{
    let y_offset: i32 = CANVAS_HEIGHT / 2;
    let x_offset: i32 = CANVAS_WIDTH / 2;

    if coord.x < -x_offset || coord.x > x_offset || coord.y < -y_offset || coord.y > y_offset {
        return ;
    }
    let cx: u32 = (coord.x + x_offset) as u32;
    let cy: u32 = (y_offset - coord.y) as u32;
    let w: u32 = canvas_width(canvas);
    let h: u32 = canvas_height(canvas);
    if cx < w && cy < h {
        canvas_put(canvas, cx, cy, color);
    }
}

} // verus!
