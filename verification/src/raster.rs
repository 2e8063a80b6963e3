//! Scan conversion: linear interpolation, lines, wireframe and filled
//! triangles, all painting through the bounds-checked pixel sink.
use vstd::prelude::*;
use crate::canvas::Canvas;
use crate::canvas::Color;
use crate::canvas::Point;
use crate::canvas::canvas_pix;
use crate::canvas::canvas_size;
use crate::canvas::color_rgb_spec;
use crate::canvas::lemma_painted_congruence;
use crate::canvas::lemma_painted_empty;
use crate::canvas::lemma_painted_extend;
use crate::canvas::painted_spec;
use crate::canvas::put_pixel;
use crate::fixed::round_div;
use crate::fixed::lemma_round_div_bounds;
use crate::fixed::lemma_round_div_exact;

verus! {

/// The smaller of two integers.
pub open spec fn imin_spec(a: int, b: int) -> int {
    if a <= b {
        a
    } else {
        b
    }
}

/// The larger of two integers.
pub open spec fn imax_spec(a: int, b: int) -> int {
    if a <= b {
        b
    } else {
        a
    }
}

/// The absolute value of an integer.
pub open spec fn iabs_spec(v: int) -> int {
    if v < 0 {
        -v
    } else {
        v
    }
}

/// How many samples interpolation over `i0..=i1` produces: one for each
/// integer of the range, a single degenerate sample when the range is
/// one point, none when it is reversed.
pub open spec fn interp_len_spec(i0: int, i1: int) -> int {
    if i0 == i1 {
        1
    } else if i0 < i1 {
        i1 - i0 + 1
    } else {
        0
    }
}

/// The `k`-th interpolated value: the line through `(i0, d0)` and
/// `(i1, d1)` evaluated at `i0 + k`, rounded to the nearest integer
/// (ties away from zero).
pub open spec fn interp_at_spec(i0: int, d0: int, i1: int, d1: int, k: int) -> int {
    if i0 == i1 {
        d0
    } else {
        round_div(d0 * (i1 - i0) + k * (d1 - d0), i1 - i0)
    }
}

/// The whole interpolated sequence.
pub open spec fn interp_seq_spec(i0: int, d0: int, i1: int, d1: int) -> Seq<int> {
    Seq::new(interp_len_spec(i0, i1) as nat, |k: int| interp_at_spec(i0, d0, i1, d1, k))
}

/// The interpolated value at each step stays between the two endpoint
/// values.
proof fn lemma_interp_in_range(i0: int, d0: int, i1: int, d1: int, k: int)
    requires
        i0 < i1,
        0 <= k <= i1 - i0,
    ensures
        d0 <= d1 ==> d0 <= interp_at_spec(i0, d0, i1, d1, k) <= d1,
        d1 <= d0 ==> d1 <= interp_at_spec(i0, d0, i1, d1, k) <= d0,
{
    let n = i1 - i0;
    let num = d0 * n + k * (d1 - d0);
    if d0 <= d1 {
        assert(d0 * n <= num && num <= d1 * n) by (nonlinear_arith)
            requires
                0 < n,
                0 <= k <= n,
                d0 <= d1,
                num == d0 * n + k * (d1 - d0),
        ;
        lemma_round_div_bounds(num, n, d0, d1);
    } else {
        assert(d1 * n <= num && num <= d0 * n) by (nonlinear_arith)
            requires
                0 < n,
                0 <= k <= n,
                d1 <= d0,
                num == d0 * n + k * (d1 - d0),
        ;
        lemma_round_div_bounds(num, n, d1, d0);
    }
}

/// Interpolation is exact at both endpoints.
pub proof fn lemma_interp_endpoints(i0: int, d0: int, i1: int, d1: int)
    requires
        i0 < i1,
    ensures
        interp_at_spec(i0, d0, i1, d1, 0) == d0,
        interp_at_spec(i0, d0, i1, d1, i1 - i0) == d1,
{
    let n = i1 - i0;
    assert(d0 * n + 0 * (d1 - d0) == d0 * n) by (nonlinear_arith);
    lemma_round_div_exact(d0, n);
    assert(d0 * n + n * (d1 - d0) == d1 * n) by (nonlinear_arith);
    lemma_round_div_exact(d1, n);
}

/// Creates the sequence of dependent values `d = f(i)` of the line
/// through `(i0, d0)` and `(i1, d1)`, one for each integer `i` in the
/// monotonic range `i0..=i1`: exactly `i1 - i0 + 1` samples. A
/// degenerate range (`i0 == i1`) yields the single value `d0`, which
/// avoids a division by zero.
pub fn interpolate(i0: i32, d0: i32, i1: i32, d1: i32) -> (values: Vec<i32>)
    requires
        i0 <= i1,
    ensures
        values@.len() == i1 as int - i0 as int + 1,
        values@.len() == interp_len_spec(i0 as int, i1 as int),
        forall|k: int|
            0 <= k < values@.len() ==> values@[k] == interp_at_spec(
                i0 as int,
                d0 as int,
                i1 as int,
                d1 as int,
                k,
            ),
        forall|k: int|
            0 <= k < values@.len() ==> imin_spec(d0 as int, d1 as int) <= #[trigger] values@[k]
                <= imax_spec(d0 as int, d1 as int),
        values@[0] == d0,
        (i0 as int) < (i1 as int) ==> values@[values@.len() - 1] == d1,
{
    if i0 == i1 {
        let mut values: Vec<i32> = Vec::new();
        values.push(d0);
        return values;
    }
    let n: i64 = (i1 as i64) - (i0 as i64);
    let dd: i64 = (d1 as i64) - (d0 as i64);
    let mut values: Vec<i32> = Vec::new();
    let mut k: i64 = 0;
    while k <= n
        invariant
            0 < n,
            n == i1 as int - i0 as int,
            dd == d1 as int - d0 as int,
            0 <= k <= n + 1,
            values@.len() == k,
            forall|j: int|
                0 <= j < k ==> values@[j] == interp_at_spec(
                    i0 as int,
                    d0 as int,
                    i1 as int,
                    d1 as int,
                    j,
                ),
            forall|j: int|
                0 <= j < k ==> imin_spec(d0 as int, d1 as int) <= #[trigger] values@[j]
                    <= imax_spec(d0 as int, d1 as int),
        decreases n - k + 1,
    {
        proof {
            assert(-0x8000_0000_0000_0000_0000 <= (d0 as int) * (n as int)
                <= 0x8000_0000_0000_0000_0000) by (nonlinear_arith)
                requires
                    -0x8000_0000 <= d0 as int <= 0x7fff_ffff,
                    0 < n as int <= 0x1_0000_0000,
            ;
            assert(-0x8000_0000_0000_0000_0000 <= (k as int) * (dd as int)
                <= 0x8000_0000_0000_0000_0000) by (nonlinear_arith)
                requires
                    0 <= k as int <= 0x1_0000_0001,
                    -0x1_0000_0000 <= dd as int <= 0x1_0000_0000,
            ;
        }
        let num: i128 = (d0 as i128) * (n as i128) + (k as i128) * (dd as i128);
        let den: i128 = n as i128;
        let val_wide: i128 = if num >= 0 {
            (2 * num + den) / (2 * den)
        } else {
            let m: i128 = -num;
            -((2 * m + den) / (2 * den))
        };
        proof {
            lemma_interp_in_range(i0 as int, d0 as int, i1 as int, d1 as int, k as int);
        }
        let val: i32 = val_wide as i32;
        values.push(val);
        k = k + 1;
    }
    proof {
        lemma_interp_endpoints(i0 as int, d0 as int, i1 as int, d1 as int);
    }
    values
}

/// Whether a line's endpoints differ more along x than along y, in
/// which case the rasterizer steps along x.
pub open spec fn line_major_x_spec(a: Point, b: Point) -> bool {
    iabs_spec(b.x - a.x) > iabs_spec(b.y - a.y)
}

/// The endpoints ordered ascending along the major axis. A pair and its
/// swap sort to the same ordered pair, which makes line drawing
/// symmetric in its endpoints.
pub open spec fn line_sorted_spec(a: Point, b: Point) -> (Point, Point) {
    if line_major_x_spec(a, b) {
        if b.x - a.x < 0 {
            (b, a)
        } else {
            (a, b)
        }
    } else {
        if b.y - a.y < 0 {
            (b, a)
        } else {
            (a, b)
        }
    }
}

/// The lit points of an x-major line restricted to columns below `hi`:
/// one pixel per column, at the interpolated row.
pub open spec fn line_lit_upto_x_spec(p0: Point, p1: Point, hi: int, c: (int, int)) -> bool {
    p0.x <= c.0 < hi && c.1 == interp_at_spec(
        p0.x as int,
        p0.y as int,
        p1.x as int,
        p1.y as int,
        c.0 - p0.x as int,
    )
}

/// The lit points of a y-major line restricted to rows below `hi`:
/// one pixel per row, at the interpolated column.
pub open spec fn line_lit_upto_y_spec(p0: Point, p1: Point, hi: int, c: (int, int)) -> bool {
    p0.y <= c.1 < hi && c.0 == interp_at_spec(
        p0.y as int,
        p0.x as int,
        p1.y as int,
        p1.x as int,
        c.1 - p0.y as int,
    )
}

/// The lit points of the line from `a` to `b`: after sorting by the
/// major axis, one pixel per unit step along that axis, the final
/// major-axis coordinate excluded.
pub open spec fn line_point_lit_spec(a: Point, b: Point, c: (int, int)) -> bool {
    let p0 = line_sorted_spec(a, b).0;
    let p1 = line_sorted_spec(a, b).1;
    if line_major_x_spec(a, b) {
        line_lit_upto_x_spec(p0, p1, p1.x as int, c)
    } else {
        line_lit_upto_y_spec(p0, p1, p1.y as int, c)
    }
}

/// Draw the connected line from `point_a` to `point_b`: step along the
/// axis of greatest delta, endpoints sorted ascending by that axis, and
/// plot the interpolated minor coordinate at each step, so the line has
/// no gaps along the major axis.
pub fn draw_line(canvas: &mut Canvas, point_a: Point, point_b: Point, color: Color)
    ensures
        canvas_size(*final(canvas)) == canvas_size(*old(canvas)),
        canvas_pix(*final(canvas)) == painted_spec(
            canvas_pix(*old(canvas)),
            canvas_size(*old(canvas)),
            |c: (int, int)| line_point_lit_spec(point_a, point_b, c),
            |c: (int, int)| color_rgb_spec(color),
        ),
{
    let ghost m0 = canvas_pix(*canvas);
    let ghost sz0 = canvas_size(*canvas);
    let dx: i64 = point_b.x as i64 - point_a.x as i64;
    let dy: i64 = point_b.y as i64 - point_a.y as i64;
    let dx_abs: i64 = if dx < 0 {
        -dx
    } else {
        dx
    };
    let dy_abs: i64 = if dy < 0 {
        -dy
    } else {
        dy
    };
    let mut p0: Point = point_a;
    let mut p1: Point = point_b;

    if dx_abs > dy_abs {
        // the line is horizontal-ish
        if dx < 0 {
            let temp: Point = p0;
            p0 = p1;
            p1 = temp;
        }
        assert((p0, p1) == line_sorted_spec(point_a, point_b));

        let ys = interpolate(p0.x, p0.y, p1.x, p1.y);

        let mut x: i32 = p0.x;
        assert(canvas_pix(*canvas) == painted_spec(
            m0,
            sz0,
            |c: (int, int)| line_lit_upto_x_spec(p0, p1, x as int, c),
            |c: (int, int)| color_rgb_spec(color),
        ));
        while x < p1.x
            invariant
                p0.x < p1.x,
                p0.x <= x <= p1.x,
                (p0, p1) == line_sorted_spec(point_a, point_b),
                line_major_x_spec(point_a, point_b),
                ys@.len() == p1.x - p0.x + 1,
                forall|j: int|
                    0 <= j < ys@.len() ==> #[trigger] ys@[j] == interp_at_spec(
                        p0.x as int,
                        p0.y as int,
                        p1.x as int,
                        p1.y as int,
                        j,
                    ),
                canvas_size(*canvas) == sz0,
                canvas_pix(*canvas) == painted_spec(
                    m0,
                    sz0,
                    |c: (int, int)| line_lit_upto_x_spec(p0, p1, x as int, c),
                    |c: (int, int)| color_rgb_spec(color),
                ),
            decreases p1.x - x,
        {
            let idx: usize = (x as i64 - p0.x as i64) as usize;
            let point = Point::new(x, ys[idx]);
            put_pixel(canvas, color, point);
            proof {
                let litn = |c: (int, int)| line_lit_upto_x_spec(p0, p1, x as int + 1, c);
                let valf = |c: (int, int)| color_rgb_spec(color);
                assert(canvas_pix(*canvas) =~= painted_spec(m0, sz0, litn, valf));
            }
            x = x + 1;
        }
        proof {
            assert(canvas_pix(*canvas) =~= painted_spec(
                m0,
                sz0,
                |c: (int, int)| line_point_lit_spec(point_a, point_b, c),
                |c: (int, int)| color_rgb_spec(color),
            ));
        }
    } else {
        // the line is vertical-ish
        if dy < 0 {
            let temp: Point = p0;
            p0 = p1;
            p1 = temp;
        }
        assert((p0, p1) == line_sorted_spec(point_a, point_b));

        let xs = interpolate(p0.y, p0.x, p1.y, p1.x);

        let mut y: i32 = p0.y;
        assert(canvas_pix(*canvas) == painted_spec(
            m0,
            sz0,
            |c: (int, int)| line_lit_upto_y_spec(p0, p1, y as int, c),
            |c: (int, int)| color_rgb_spec(color),
        ));
        while y < p1.y
            invariant
                p0.y <= p1.y,
                p0.y <= y <= p1.y,
                (p0, p1) == line_sorted_spec(point_a, point_b),
                !line_major_x_spec(point_a, point_b),
                xs@.len() == interp_len_spec(p0.y as int, p1.y as int),
                forall|j: int|
                    0 <= j < xs@.len() ==> #[trigger] xs@[j] == interp_at_spec(
                        p0.y as int,
                        p0.x as int,
                        p1.y as int,
                        p1.x as int,
                        j,
                    ),
                canvas_size(*canvas) == sz0,
                canvas_pix(*canvas) == painted_spec(
                    m0,
                    sz0,
                    |c: (int, int)| line_lit_upto_y_spec(p0, p1, y as int, c),
                    |c: (int, int)| color_rgb_spec(color),
                ),
            decreases p1.y - y,
        {
            let idx: usize = (y as i64 - p0.y as i64) as usize;
            let point = Point::new(xs[idx], y);
            put_pixel(canvas, color, point);
            proof {
                let litn = |c: (int, int)| line_lit_upto_y_spec(p0, p1, y as int + 1, c);
                let valf = |c: (int, int)| color_rgb_spec(color);
                assert(canvas_pix(*canvas) =~= painted_spec(m0, sz0, litn, valf));
            }
            y = y + 1;
        }
        proof {
            assert(canvas_pix(*canvas) =~= painted_spec(
                m0,
                sz0,
                |c: (int, int)| line_point_lit_spec(point_a, point_b, c),
                |c: (int, int)| color_rgb_spec(color),
            ));
        }
    }
}

/// The pixel map after drawing the three edges of a triangle, in
/// order: edge 0-1, edge 1-2, edge 0-2, all in one color.
pub open spec fn wire_pix_spec(
    m: Map<(int, int), (u8, u8, u8)>,
    sz: (int, int),
    p0: Point,
    p1: Point,
    p2: Point,
    color: Color,
) -> Map<(int, int), (u8, u8, u8)> {
    painted_spec(
        painted_spec(
            painted_spec(
                m,
                sz,
                |c: (int, int)| line_point_lit_spec(p0, p1, c),
                |c: (int, int)| color_rgb_spec(color),
            ),
            sz,
            |c: (int, int)| line_point_lit_spec(p1, p2, c),
            |c: (int, int)| color_rgb_spec(color),
        ),
        sz,
        |c: (int, int)| line_point_lit_spec(p0, p2, c),
        |c: (int, int)| color_rgb_spec(color),
    )
}

/// Draw the three edges of a triangle.
pub fn draw_wireframe_triangle(p0: Point, p1: Point, p2: Point, color: Color, canvas: &mut Canvas)
    ensures
        canvas_size(*final(canvas)) == canvas_size(*old(canvas)),
        canvas_pix(*final(canvas)) == wire_pix_spec(
            canvas_pix(*old(canvas)),
            canvas_size(*old(canvas)),
            p0,
            p1,
            p2,
            color,
        ),
{
    draw_line(canvas, p0, p1, color);
    draw_line(canvas, p1, p2, color);
    draw_line(canvas, p0, p2, color);
}

/// The vertices and their shading intensities sorted ascending by y,
/// by the same three conditional exchanges the rasterizer performs.
pub open spec fn tri_sort_spec(p0: Point, h0: int, p1: Point, h1: int, p2: Point, h2: int) -> (
    Point,
    Point,
    Point,
    int,
    int,
    int,
) {
    let s1 = if p1.y < p0.y {
        (p1, p0, p2, h1, h0, h2)
    } else {
        (p0, p1, p2, h0, h1, h2)
    };
    let s2 = if s1.2.y < s1.0.y {
        (s1.2, s1.1, s1.0, s1.5, s1.4, s1.3)
    } else {
        s1
    };
    if s2.2.y < s2.1.y {
        (s2.0, s2.2, s2.1, s2.3, s2.5, s2.4)
    } else {
        s2
    }
}

/// The long edge of a y-sorted triangle: x interpolated from the top
/// vertex to the bottom vertex, one value per scanline.
pub open spec fn tri_x02_seq_spec(q0: Point, q2: Point) -> Seq<int> {
    interp_seq_spec(q0.y as int, q0.x as int, q2.y as int, q2.x as int)
}

/// The two short edges of a y-sorted triangle concatenated: x
/// interpolated from top to middle (its last sample dropped, to avoid
/// the duplicate at the shared vertex), then from middle to bottom.
pub open spec fn tri_x012_seq_spec(q0: Point, q1: Point, q2: Point) -> Seq<int> {
    interp_seq_spec(q0.y as int, q0.x as int, q1.y as int, q1.x as int).drop_last() + interp_seq_spec(
        q1.y as int,
        q1.x as int,
        q2.y as int,
        q2.x as int,
    )
}

/// The shading intensities along the long edge.
pub open spec fn tri_h02_seq_spec(q0: Point, g0: int, q2: Point, g2: int) -> Seq<int> {
    interp_seq_spec(q0.y as int, g0, q2.y as int, g2)
}

/// The shading intensities along the two short edges, concatenated the
/// same way as the x boundaries.
pub open spec fn tri_h012_seq_spec(
    q0: Point,
    g0: int,
    q1: Point,
    g1: int,
    q2: Point,
    g2: int,
) -> Seq<int> {
    interp_seq_spec(q0.y as int, g0, q1.y as int, g1).drop_last() + interp_seq_spec(
        q1.y as int,
        g1,
        q2.y as int,
        g2,
    )
}

/// The scanline index at which the two boundaries are compared: the
/// vertical midpoint of the long edge.
pub open spec fn tri_mid_spec(q0: Point, q2: Point) -> int {
    interp_len_spec(q0.y as int, q2.y as int) / 2
}

/// Whether the long edge is the left boundary, decided by comparing the
/// two boundaries at the midpoint scanline.
pub open spec fn tri_left02_spec(q0: Point, q1: Point, q2: Point) -> bool {
    tri_x02_seq_spec(q0, q2)[tri_mid_spec(q0, q2)] < tri_x012_seq_spec(q0, q1, q2)[tri_mid_spec(
        q0,
        q2,
    )]
}

/// The left x boundary of scanline `j` (counted from the top vertex).
pub open spec fn tri_xl_spec(q0: Point, q1: Point, q2: Point, j: int) -> int {
    if tri_left02_spec(q0, q1, q2) {
        tri_x02_seq_spec(q0, q2)[j]
    } else {
        tri_x012_seq_spec(q0, q1, q2)[j]
    }
}

/// The right x boundary of scanline `j`.
pub open spec fn tri_xr_spec(q0: Point, q1: Point, q2: Point, j: int) -> int {
    if tri_left02_spec(q0, q1, q2) {
        tri_x012_seq_spec(q0, q1, q2)[j]
    } else {
        tri_x02_seq_spec(q0, q2)[j]
    }
}

/// The shading intensity at the left boundary of scanline `j`.
pub open spec fn tri_hl_spec(
    q0: Point,
    q1: Point,
    q2: Point,
    g0: int,
    g1: int,
    g2: int,
    j: int,
) -> int {
    if tri_left02_spec(q0, q1, q2) {
        tri_h02_seq_spec(q0, g0, q2, g2)[j]
    } else {
        tri_h012_seq_spec(q0, g0, q1, g1, q2, g2)[j]
    }
}

/// The shading intensity at the right boundary of scanline `j`.
pub open spec fn tri_hr_spec(
    q0: Point,
    q1: Point,
    q2: Point,
    g0: int,
    g1: int,
    g2: int,
    j: int,
) -> int {
    if tri_left02_spec(q0, q1, q2) {
        tri_h012_seq_spec(q0, g0, q1, g1, q2, g2)[j]
    } else {
        tri_h02_seq_spec(q0, g0, q2, g2)[j]
    }
}

/// Both boundary sequences of a y-sorted triangle cover exactly one
/// scanline per y from the top vertex to the bottom vertex.
pub proof fn lemma_tri_spans_len(q0: Point, q1: Point, q2: Point)
    requires
        q0.y <= q1.y,
        q1.y <= q2.y,
    ensures
        tri_x02_seq_spec(q0, q2).len() == q2.y - q0.y + 1,
        tri_x012_seq_spec(q0, q1, q2).len() == q2.y - q0.y + 1,
{
}

/// The per-scanline boundaries of a filled triangle, with the parallel
/// shading interpolation: for vertices already sorted ascending by y,
/// exactly `p2.y - p0.y + 1` scanlines, each with a left and right x
/// boundary and the shading intensities there.
pub struct TriangleSpans {
    pub y_top: i32,
    pub y_bot: i32,
    pub x_left: Vec<i32>,
    pub h_left: Vec<i32>,
    pub x_right: Vec<i32>,
    pub h_right: Vec<i32>,
}

/// Compute the scanline boundaries of a y-sorted triangle; the
/// intensities `h0`, `h1`, `h2` are per-mille values carried along each
/// edge by the same interpolation as the x boundaries.
pub fn triangle_spans(p0: Point, p1: Point, p2: Point, h0: i32, h1: i32, h2: i32) -> (r:
    TriangleSpans)
    requires
        p0.y <= p1.y,
        p1.y <= p2.y,
        0 <= h0 <= 1000,
        0 <= h1 <= 1000,
        0 <= h2 <= 1000,
    ensures
        r.y_top == p0.y,
        r.y_bot == p2.y,
        r.x_left@.len() == p2.y - p0.y + 1,
        r.x_right@.len() == p2.y - p0.y + 1,
        r.h_left@.len() == p2.y - p0.y + 1,
        r.h_right@.len() == p2.y - p0.y + 1,
        forall|j: int|
            0 <= j < r.x_left@.len() ==> #[trigger] r.x_left@[j] as int == tri_xl_spec(
                p0,
                p1,
                p2,
                j,
            ),
        forall|j: int|
            0 <= j < r.x_right@.len() ==> #[trigger] r.x_right@[j] as int == tri_xr_spec(
                p0,
                p1,
                p2,
                j,
            ),
        forall|j: int|
            0 <= j < r.h_left@.len() ==> #[trigger] r.h_left@[j] as int == tri_hl_spec(
                p0,
                p1,
                p2,
                h0 as int,
                h1 as int,
                h2 as int,
                j,
            ),
        forall|j: int|
            0 <= j < r.h_right@.len() ==> #[trigger] r.h_right@[j] as int == tri_hr_spec(
                p0,
                p1,
                p2,
                h0 as int,
                h1 as int,
                h2 as int,
                j,
            ),
        forall|j: int| 0 <= j < r.h_left@.len() ==> 0 <= #[trigger] r.h_left@[j] <= 1000,
        forall|j: int| 0 <= j < r.h_right@.len() ==> 0 <= #[trigger] r.h_right@[j] <= 1000,
{
    let mut x01 = interpolate(p0.y, p0.x, p1.y, p1.x);
    let mut h01 = interpolate(p0.y, h0, p1.y, h1);

    let mut x12 = interpolate(p1.y, p1.x, p2.y, p2.x);
    let mut h12 = interpolate(p1.y, h1, p2.y, h2);

    let x02 = interpolate(p0.y, p0.x, p2.y, p2.x);
    let h02 = interpolate(p0.y, h0, p2.y, h2);

    let popped_x = x01.pop();
    x01.append(&mut x12);

    let popped_h = h01.pop();
    h01.append(&mut h12);

    proof {
        lemma_tri_spans_len(p0, p1, p2);
        assert(x01@.map_values(|v: i32| v as int) =~= tri_x012_seq_spec(p0, p1, p2));
        assert(h01@.map_values(|v: i32| v as int) =~= tri_h012_seq_spec(
            p0,
            h0 as int,
            p1,
            h1 as int,
            p2,
            h2 as int,
        ));
        assert(x02@.map_values(|v: i32| v as int) =~= tri_x02_seq_spec(p0, p2));
        assert(h02@.map_values(|v: i32| v as int) =~= tri_h02_seq_spec(p0, h0 as int, p2, h2 as int));
    }

    let m: usize = x02.len() / 2;

    if x02[m] < x01[m] {
        TriangleSpans {
            y_top: p0.y,
            y_bot: p2.y,
            x_left: x02,
            h_left: h02,
            x_right: x01,
            h_right: h01,
        }
    } else {
        TriangleSpans {
            y_top: p0.y,
            y_bot: p2.y,
            x_left: x01,
            h_left: h01,
            x_right: x02,
            h_right: h02,
        }
    }
}

/// A color scaled by a per-mille shading intensity: each channel is
/// multiplied by `h / 1000` and rounded to the nearest integer.
pub open spec fn shade_spec(color: Color, h: int) -> (u8, u8, u8) {
    (
        round_div((color.r as int) * h, 1000) as u8,
        round_div((color.g as int) * h, 1000) as u8,
        round_div((color.b as int) * h, 1000) as u8,
    )
}

/// One channel scaled by a per-mille intensity.
fn shade_channel(ch: u8, h: i32) -> (r: u8)
    requires
        0 <= h <= 1000,
    ensures
        r as int == round_div((ch as int) * (h as int), 1000),
{
    proof {
        assert(0 <= (ch as int) * (h as int) <= 255 * 1000) by (nonlinear_arith)
            requires
                0 <= ch as int <= 255,
                0 <= h as int <= 1000,
        ;
        lemma_round_div_bounds((ch as int) * (h as int), 1000, 0, 255);
    }
    let num: i64 = (ch as i64) * (h as i64);
    let q: i64 = (2 * num + 1000) / 2000;
    q as u8
}

/// A color scaled by a per-mille shading intensity.
pub fn shade(color: Color, h: i32) -> (c: Color)
    requires
        0 <= h <= 1000,
    ensures
        color_rgb_spec(c) == shade_spec(color, h as int),
{
    Color {
        r: shade_channel(color.r, h),
        g: shade_channel(color.g, h),
        b: shade_channel(color.b, h),
    }
}

/// The lit points of a y-sorted filled triangle, restricted to the
/// scanlines above `yh`: each such scanline is lit from its left
/// boundary (inclusive) to its right boundary (exclusive).
pub open spec fn filled_rows_lit_spec(q0: Point, q1: Point, q2: Point, yh: int, c: (int, int)) -> bool {
    let j = c.1 - q0.y;
    q0.y <= c.1 && c.1 <= q2.y && c.1 < yh && tri_xl_spec(q0, q1, q2, j) <= c.0 && c.0 < tri_xr_spec(
        q0,
        q1,
        q2,
        j,
    )
}

/// The lit points with the scanlines above `yh` complete and scanline
/// `yh` filled up to column `xh`.
pub open spec fn filled_partial_lit_spec(
    q0: Point,
    q1: Point,
    q2: Point,
    yh: int,
    xh: int,
    c: (int, int),
) -> bool {
    filled_rows_lit_spec(q0, q1, q2, yh, c) || (c.1 == yh && q0.y <= yh && yh <= q2.y
        && tri_xl_spec(q0, q1, q2, yh - q0.y) <= c.0 && c.0 < xh)
}

/// The shaded color of a lit point of a y-sorted filled triangle: the
/// intensity is interpolated between the two boundaries of its
/// scanline and applied to the flat color.
pub open spec fn filled_val_spec(
    q0: Point,
    q1: Point,
    q2: Point,
    g0: int,
    g1: int,
    g2: int,
    color: Color,
    c: (int, int),
) -> (u8, u8, u8) {
    let j = c.1 - q0.y;
    shade_spec(
        color,
        interp_at_spec(
            tri_xl_spec(q0, q1, q2, j),
            tri_hl_spec(q0, q1, q2, g0, g1, g2, j),
            tri_xr_spec(q0, q1, q2, j),
            tri_hr_spec(q0, q1, q2, g0, g1, g2, j),
            c.0 - tri_xl_spec(q0, q1, q2, j),
        ),
    )
}

/// The lit points of a filled triangle with arbitrary vertex order:
/// the vertices are sorted ascending by y first.
pub open spec fn filled_tri_lit_spec(
    p0: Point,
    h0: int,
    p1: Point,
    h1: int,
    p2: Point,
    h2: int,
    c: (int, int),
) -> bool {
    let s = tri_sort_spec(p0, h0, p1, h1, p2, h2);
    filled_rows_lit_spec(s.0, s.1, s.2, s.2.y + 1, c)
}

/// The shaded color at a lit point of a filled triangle with arbitrary
/// vertex order.
pub open spec fn filled_tri_val_spec(
    p0: Point,
    h0: int,
    p1: Point,
    h1: int,
    p2: Point,
    h2: int,
    color: Color,
    c: (int, int),
) -> (u8, u8, u8) {
    let s = tri_sort_spec(p0, h0, p1, h1, p2, h2);
    filled_val_spec(s.0, s.1, s.2, s.3, s.4, s.5, color, c)
}

/// Fill a triangle with Gouraud-style shading: sort the vertices by
/// ascending y, compute per-scanline x boundaries along the triangle's
/// edges, and paint each scanline from the left boundary (inclusive) to
/// the right boundary (exclusive), interpolating the per-vertex
/// intensities `h0`, `h1`, `h2` (per-mille) across the interior. The
/// intensities are caller-supplied; a common convention lights the top
/// vertex at 0, the middle at 400 and the bottom at 900.
#[verifier::loop_isolation(false)]
#[verifier::rlimit(50)]
pub fn draw_filled_triangle(
    p0: Point,
    p1: Point,
    p2: Point,
    color: Color,
    h0: i32,
    h1: i32,
    h2: i32,
    canvas: &mut Canvas,
)
    requires
        0 <= h0 <= 1000,
        0 <= h1 <= 1000,
        0 <= h2 <= 1000,
    ensures
        canvas_size(*final(canvas)) == canvas_size(*old(canvas)),
        canvas_pix(*final(canvas)) == painted_spec(
            canvas_pix(*old(canvas)),
            canvas_size(*old(canvas)),
            |c: (int, int)| filled_tri_lit_spec(p0, h0 as int, p1, h1 as int, p2, h2 as int, c),
            |c: (int, int)| filled_tri_val_spec(
                p0,
                h0 as int,
                p1,
                h1 as int,
                p2,
                h2 as int,
                color,
                c,
            ),
        ),
{
    let ghost m0 = canvas_pix(*canvas);
    let ghost sz0 = canvas_size(*canvas);

    let mut q0: Point = p0;
    let mut q1: Point = p1;
    let mut q2: Point = p2;
    let mut g0: i32 = h0;
    let mut g1: i32 = h1;
    let mut g2: i32 = h2;

    if q1.y < q0.y {
        Point::swap(&mut q1, &mut q0);
        let t: i32 = g1;
        g1 = g0;
        g0 = t;
    }
    if q2.y < q0.y {
        Point::swap(&mut q2, &mut q0);
        let t: i32 = g2;
        g2 = g0;
        g0 = t;
    }
    if q2.y < q1.y {
        Point::swap(&mut q2, &mut q1);
        let t: i32 = g2;
        g2 = g1;
        g1 = t;
    }
    assert((q0, q1, q2, g0 as int, g1 as int, g2 as int) == tri_sort_spec(
        p0,
        h0 as int,
        p1,
        h1 as int,
        p2,
        h2 as int,
    ));

    let spans = triangle_spans(q0, q1, q2, g0, g1, g2);

    let ghost valq = |c: (int, int)| filled_val_spec(
        q0,
        q1,
        q2,
        g0 as int,
        g1 as int,
        g2 as int,
        color,
        c,
    );

    let mut y: i64 = q0.y as i64;
    proof {
        let lit0 = |c: (int, int)| filled_rows_lit_spec(q0, q1, q2, y as int, c);
        assert forall|c: (int, int)| #![trigger lit0(c)] !lit0(c) by {
        }
        lemma_painted_empty(m0, sz0, lit0, valq);
    }
    while y <= q2.y as i64
        invariant
            q0.y <= y,
            y <= q2.y + 1,
            canvas_size(*canvas) == sz0,
            canvas_pix(*canvas) == painted_spec(
                m0,
                sz0,
                |c: (int, int)| filled_rows_lit_spec(q0, q1, q2, y as int, c),
                valq,
            ),
        decreases q2.y + 1 - y,
    {
        let jj: usize = (y - q0.y as i64) as usize;
        let x_l: i32 = spans.x_left[jj];
        let x_r: i32 = spans.x_right[jj];
        let h_l: i32 = spans.h_left[jj];
        let h_r: i32 = spans.h_right[jj];

        let h_segment = if x_l <= x_r {
            interpolate(x_l, h_l, x_r, h_r)
        } else {
            Vec::new()
        };

        let mut x: i32 = x_l;
        proof {
            let lit_rows = |c: (int, int)| filled_rows_lit_spec(q0, q1, q2, y as int, c);
            let lit_part = |c: (int, int)| filled_partial_lit_spec(
                q0,
                q1,
                q2,
                y as int,
                x as int,
                c,
            );
            assert forall|c: (int, int)| #![trigger lit_rows(c)] #![trigger lit_part(c)] (lit_rows(c) <==> lit_part(c)) by {
            }
            lemma_painted_congruence(m0, sz0, lit_rows, lit_part, valq, valq);
        }
        while x < x_r
            invariant
                x_l <= x,
                x <= imax_spec(x_l as int, x_r as int),
                canvas_size(*canvas) == sz0,
                canvas_pix(*canvas) == painted_spec(
                    m0,
                    sz0,
                    |c: (int, int)| filled_partial_lit_spec(q0, q1, q2, y as int, x as int, c),
                    valq,
                ),
            decreases x_r - x,
        {
            let idx: usize = (x as i64 - x_l as i64) as usize;
            let shaded = shade(color, h_segment[idx]);
            put_pixel(canvas, shaded, Point::new(x, y as i32));
            proof {
                let lit = |c: (int, int)| filled_partial_lit_spec(
                    q0,
                    q1,
                    q2,
                    y as int,
                    x as int,
                    c,
                );
                let litn = |c: (int, int)| filled_partial_lit_spec(
                    q0,
                    q1,
                    q2,
                    y as int,
                    x as int + 1,
                    c,
                );
                assert forall|c: (int, int)| #![trigger litn(c)] #![trigger lit(c)] (litn(c) <==> lit(c) || c == (x as int, y as int)) by {
                }
                assert(color_rgb_spec(shaded) == valq((x as int, y as int))) by {
                    assert(h_segment@[idx as int] == interp_at_spec(
                        x_l as int,
                        h_l as int,
                        x_r as int,
                        h_r as int,
                        idx as int,
                    ));
                }
                lemma_painted_extend(
                    m0,
                    sz0,
                    lit,
                    litn,
                    valq,
                    Point { x: x, y: y as i32 },
                    shaded,
                );
            }
            x = x + 1;
        }
        proof {
            let lit_part = |c: (int, int)| filled_partial_lit_spec(
                q0,
                q1,
                q2,
                y as int,
                x as int,
                c,
            );
            let lit_next = |c: (int, int)| filled_rows_lit_spec(q0, q1, q2, y as int + 1, c);
            assert forall|c: (int, int)| #![trigger lit_part(c)] #![trigger lit_next(c)] (lit_part(c) <==> lit_next(c)) by {
            }
            lemma_painted_congruence(m0, sz0, lit_part, lit_next, valq, valq);
        }
        y = y + 1;
    }
    proof {
        let lit_done = |c: (int, int)| filled_rows_lit_spec(q0, q1, q2, y as int, c);
        let lit_tri = |c: (int, int)| filled_tri_lit_spec(
            p0,
            h0 as int,
            p1,
            h1 as int,
            p2,
            h2 as int,
            c,
        );
        let val_tri = |c: (int, int)| filled_tri_val_spec(
            p0,
            h0 as int,
            p1,
            h1 as int,
            p2,
            h2 as int,
            color,
            c,
        );
        assert forall|c: (int, int)| #![trigger lit_done(c)] #![trigger lit_tri(c)] (lit_done(c) <==> lit_tri(c)) by {
        }
        assert forall|c: (int, int)| #![trigger lit_done(c)] (lit_done(c) ==> valq(c) == val_tri(c)) by {
        }
        lemma_painted_congruence(m0, sz0, lit_done, lit_tri, valq, val_tri);
    }
}

} // verus!
