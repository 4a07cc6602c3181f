//! The overlay's RGBA canvas, `WINDOW_WIDTH` by `WINDOW_HEIGHT` pixels of
//! four bytes each, row by row, and the ways of painting into it.
use vstd::prelude::*;

verus! {

pub const WINDOW_WIDTH: i32 = 356;

pub const WINDOW_HEIGHT: i32 = 320;

/// Length in bytes of a canvas.
pub open spec fn canvas_len() -> int {
    WINDOW_WIDTH * WINDOW_HEIGHT * 4
}

/// Channel `ch` (red, green, blue, alpha for 0 to 3) after blending a source
/// channel over a destination channel with source alpha `alpha`: colour
/// channels mix in proportion to `alpha`, alpha accumulates.
pub open spec fn blend_channel(src: u8, dst: u8, alpha: u8, ch: int) -> u8 {
    if ch < 3 {
        ((src * alpha + dst * (255 - alpha)) / 255) as u8
    } else {
        (alpha + (dst * (255 - alpha)) / 255) as u8
    }
}

/// Column of the pixel that canvas byte `i` belongs to.
pub open spec fn byte_x(i: int) -> int {
    (i / 4) % (WINDOW_WIDTH as int)
}

/// Row of the pixel that canvas byte `i` belongs to.
pub open spec fn byte_y(i: int) -> int {
    (i / 4) / (WINDOW_WIDTH as int)
}

/// `old` with every pixel `(x, y)` for which `covers(x, y)` holds blended
/// once with the colour `color_of(x, y)` (four bytes, RGBA); other bytes kept.
pub open spec fn paint(
    old: Seq<u8>,
    covers: spec_fn(int, int) -> bool,
    color_of: spec_fn(int, int) -> Seq<u8>,
) -> Seq<u8> {
    Seq::new(
        old.len(),
        |i: int|
            if covers(byte_x(i), byte_y(i)) {
                blend_channel(
                    color_of(byte_x(i), byte_y(i))[i % 4],
                    old[i],
                    color_of(byte_x(i), byte_y(i))[3],
                    i % 4,
                )
            } else {
                old[i]
            },
    )
}

/// A single colour for every pixel.
pub open spec fn solid(color: [u8; 4]) -> spec_fn(int, int) -> Seq<u8> {
    |x: int, y: int| color@
}

/// Only the pixel `(x, y)`.
pub open spec fn single(x: int, y: int) -> spec_fn(int, int) -> bool {
    |px: int, py: int| px == x && py == y
}

/// Facts about the pixel a canvas byte belongs to.
pub proof fn lemma_byte_pixel(i: int)
    requires
        0 <= i < canvas_len(),
    ensures
        0 <= byte_x(i) < WINDOW_WIDTH,
        0 <= byte_y(i) < WINDOW_HEIGHT,
        i == (byte_y(i) * WINDOW_WIDTH + byte_x(i)) * 4 + i % 4,
        0 <= i % 4 < 4,
{
}

/// The bytes of pixel `(x, y)` are those from `(y * WIDTH + x) * 4` on.
pub proof fn lemma_pixel_bytes(x: int, y: int, i: int)
    requires
        0 <= x < WINDOW_WIDTH,
        0 <= y < WINDOW_HEIGHT,
        0 <= i < canvas_len(),
    ensures
        (byte_x(i) == x && byte_y(i) == y) <==> ((y * WINDOW_WIDTH + x) * 4 <= i < (y
            * WINDOW_WIDTH + x) * 4 + 4),
{
}

/// The channel blend of one byte.
fn blend_byte(src: u8, dst: u8, alpha: u8, ch: usize) -> (r: u8)
    requires
        ch < 4,
    ensures
        r == blend_channel(src, dst, alpha, ch as int),
{
    let a: u16 = alpha as u16;
    let inv: u16 = 255 - a;
    if ch < 3 {
        assert((src as u16) * a + (dst as u16) * inv <= 255 * 255) by (nonlinear_arith)
            requires
                a <= 255,
                inv == 255 - a,
                src <= 255,
                dst <= 255,
        ;
        (((src as u16) * a + (dst as u16) * inv) / 255) as u8
    } else {
        assert((dst as u16) * inv <= 255 * inv) by (nonlinear_arith)
            requires
                dst <= 255,
        ;
        assert(a + (dst as u16) * inv / 255 <= 255) by (nonlinear_arith)
            requires
                (dst as u16) * inv <= 255 * inv,
                inv == 255 - a,
                a <= 255,
        ;
        (a + ((dst as u16) * inv) / 255) as u8
    }
}

/// The pixel `dst` with `src` blended over it: colour channels mix in
/// proportion to the alpha of `src`, alpha accumulates.
pub fn alpha_blend(dst: [u8; 4], src: [u8; 4]) -> (out: [u8; 4])
    ensures
        forall|c: int| 0 <= c < 4 ==> out@[c] == blend_channel(src@[c], dst@[c], src@[3], c),
{
    let alpha = src[3];
    let r = blend_byte(src[0], dst[0], alpha, 0);
    let g = blend_byte(src[1], dst[1], alpha, 1);
    let b = blend_byte(src[2], dst[2], alpha, 2);
    let a = blend_byte(src[3], dst[3], alpha, 3);
    let out = [r, g, b, a];
    assert forall|c: int| 0 <= c < 4 implies out@[c] == blend_channel(
        src@[c],
        dst@[c],
        src@[3],
        c,
    ) by {
        if c == 0 {
        } else if c == 1 {
        } else if c == 2 {
        } else {
        }
    }
    out
}

/// Blends `color` over the pixel `(x, y)`; a pixel outside the window is
/// left alone.
pub fn put_pixel(canvas: &mut Vec<u8>, x: i32, y: i32, color: [u8; 4])
    requires
        old(canvas)@.len() == canvas_len(),
    ensures
        final(canvas)@ == paint(old(canvas)@, single(x as int, y as int), solid(color)),
{
    if x < 0 || y < 0 || x >= WINDOW_WIDTH || y >= WINDOW_HEIGHT {
        assert(canvas@ == paint(old(canvas)@, single(x as int, y as int), solid(color))) by {
            assert forall|i: int| 0 <= i < canvas@.len() implies canvas@[i] == paint(
                old(canvas)@,
                single(x as int, y as int),
                solid(color),
            )[i] by {
                lemma_byte_pixel(i);
            }
        }
        return;
    }
    let dst: usize = ((y * WINDOW_WIDTH + x) * 4) as usize;
    let ghost before = canvas@;
    let pixel = [canvas[dst], canvas[dst + 1], canvas[dst + 2], canvas[dst + 3]];
    let blended = alpha_blend(pixel, color);
    canvas.set(dst, blended[0]);
    canvas.set(dst + 1, blended[1]);
    canvas.set(dst + 2, blended[2]);
    canvas.set(dst + 3, blended[3]);
    assert forall|i: int| 0 <= i < canvas@.len() implies canvas@[i] == if dst <= i < dst + 4 {
        blend_channel(color@[i - dst], before[i], color@[3], i - dst)
    } else {
        before[i]
    } by {
        if dst <= i < dst + 4 {
            assert(pixel@[i - dst] == before[i]);
            assert(blended@[i - dst] == canvas@[i]);
        }
    }
    assert(canvas@ == paint(before, single(x as int, y as int), solid(color))) by {
        assert forall|i: int| 0 <= i < canvas@.len() implies canvas@[i] == paint(
            before,
            single(x as int, y as int),
            solid(color),
        )[i] by {
            lemma_byte_pixel(i);
            lemma_pixel_bytes(x as int, y as int, i);
        }
    }
}

/// Painting twice with the same colours over disjoint sets of pixels is
/// painting once over their union.
pub proof fn lemma_paint_union(
    old: Seq<u8>,
    a: spec_fn(int, int) -> bool,
    b: spec_fn(int, int) -> bool,
    color_of: spec_fn(int, int) -> Seq<u8>,
)
    requires
        forall|x: int, y: int| !(#[trigger] a(x, y) && b(x, y)),
    ensures
        paint(paint(old, a, color_of), b, color_of) == paint(
            old,
            |x: int, y: int| a(x, y) || b(x, y),
            color_of,
        ),
{
    let lhs = paint(paint(old, a, color_of), b, color_of);
    let rhs = paint(old, |x: int, y: int| a(x, y) || b(x, y), color_of);
    assert forall|i: int| 0 <= i < lhs.len() implies lhs[i] == rhs[i] by {
        if a(byte_x(i), byte_y(i)) {
            assert(!b(byte_x(i), byte_y(i)));
        }
    }
    assert(lhs == rhs);
}

/// Painting depends only on which pixels are covered.
pub proof fn lemma_paint_same_cover(
    old: Seq<u8>,
    a: spec_fn(int, int) -> bool,
    b: spec_fn(int, int) -> bool,
    color_of: spec_fn(int, int) -> Seq<u8>,
)
    requires
        forall|x: int, y: int| #[trigger] a(x, y) == b(x, y),
    ensures
        paint(old, a, color_of) == paint(old, b, color_of),
{
    assert(paint(old, a, color_of) == paint(old, b, color_of));
}

/// Painting depends only on which pixels are covered and on the colours of
/// covered pixels.
pub proof fn lemma_paint_same(
    old: Seq<u8>,
    a: spec_fn(int, int) -> bool,
    b: spec_fn(int, int) -> bool,
    ca: spec_fn(int, int) -> Seq<u8>,
    cb: spec_fn(int, int) -> Seq<u8>,
)
    requires
        forall|x: int, y: int| #[trigger] a(x, y) == b(x, y),
        forall|x: int, y: int| #[trigger] a(x, y) ==> ca(x, y) == cb(x, y),
    ensures
        paint(old, a, ca) == paint(old, b, cb),
{
    assert(paint(old, a, ca) == paint(old, b, cb));
}

/// Painting no pixel leaves the canvas as it was.
pub proof fn lemma_paint_nothing(old: Seq<u8>, color_of: spec_fn(int, int) -> Seq<u8>)
    ensures
        paint(old, |x: int, y: int| false, color_of) == old,
{
    assert(paint(old, |x: int, y: int| false, color_of) == old);
}

/// The range `[start, start + len)` ends within `i32`.
pub open spec fn span_fits(start: i32, len: i32) -> bool {
    i32::MIN <= start + len <= i32::MAX
}

/// The corner centre the pixel `p` is measured from along one axis: the
/// rounded corner's centre near the ends of `[start, start + len)`, the
/// pixel itself in between.
pub open spec fn corner_center(p: int, start: int, len: int, radius: int) -> int {
    if p < start + radius {
        start + radius
    } else if p >= start + len - radius {
        start + len - radius - 1
    } else {
        p
    }
}

/// Whether pixel `(px, py)` lies in the rectangle at `(x, y)` of size
/// `width` by `height` with corners rounded to `radius`.
pub open spec fn round_rect_covers(
    x: int,
    y: int,
    width: int,
    height: int,
    radius: int,
    px: int,
    py: int,
) -> bool {
    let dx = px - corner_center(px, x, width, radius);
    let dy = py - corner_center(py, y, height, radius);
    &&& x <= px < x + width
    &&& y <= py < y + height
    &&& dx * dx + dy * dy <= radius * radius
}

/// The pixels of a rounded rectangle.
pub open spec fn round_rect(x: int, y: int, width: int, height: int, radius: int) -> spec_fn(
    int,
    int,
) -> bool {
    |px: int, py: int| round_rect_covers(x, y, width, height, radius, px, py)
}

/// The pixels of a rounded rectangle before `(px, py)` in row order.
pub open spec fn round_rect_before(
    x: int,
    y: int,
    width: int,
    height: int,
    radius: int,
    px: int,
    py: int,
) -> spec_fn(int, int) -> bool {
    |qx: int, qy: int|
        round_rect_covers(x, y, width, height, radius, qx, qy) && (qy < py || (qy == py && qx
            < px))
}

/// Whether the pixel `(px, py)` of the rectangle passes the rounded-corner
/// test, computed without overflow.
fn in_round_rect(x: i32, y: i32, width: i32, height: i32, radius: i32, px: i32, py: i32) -> (r:
    bool)
    requires
        x <= px < x + width,
        y <= py < y + height,
    ensures
        r == round_rect_covers(
            x as int,
            y as int,
            width as int,
            height as int,
            radius as int,
            px as int,
            py as int,
        ),
{
    let x: i128 = x as i128;
    let y: i128 = y as i128;
    let width: i128 = width as i128;
    let height: i128 = height as i128;
    let radius: i128 = radius as i128;
    let px: i128 = px as i128;
    let py: i128 = py as i128;
    let cx: i128 = if px < x + radius {
        x + radius
    } else if px >= x + width - radius {
        x + width - radius - 1
    } else {
        px
    };
    let cy: i128 = if py < y + radius {
        y + radius
    } else if py >= y + height - radius {
        y + height - radius - 1
    } else {
        py
    };
    let dx: i128 = px - cx;
    let dy: i128 = py - cy;
    assert(0 <= dx * dx <= 0x4_0000_0000 * 0x4_0000_0000) by (nonlinear_arith)
        requires
            -0x4_0000_0000 <= dx <= 0x4_0000_0000,
    ;
    assert(0 <= dy * dy <= 0x4_0000_0000 * 0x4_0000_0000) by (nonlinear_arith)
        requires
            -0x4_0000_0000 <= dy <= 0x4_0000_0000,
    ;
    assert(0 <= radius * radius <= 0x1_0000_0000 * 0x1_0000_0000) by (nonlinear_arith)
        requires
            -0x1_0000_0000 <= radius <= 0x1_0000_0000,
    ;
    dx * dx + dy * dy <= radius * radius
}

/// Fills the rounded rectangle as [`fill_round_rect`] does, for any
/// rectangle whose last row and column lie within `i32`.
pub(crate) fn paint_round_rect(
    canvas: &mut Vec<u8>,
    x: i32,
    y: i32,
    width: i32,
    height: i32,
    radius: i32,
    color: [u8; 4],
)
    requires
        old(canvas)@.len() == canvas_len(),
        x + width <= i32::MAX + 1,
        y + height <= i32::MAX + 1,
    ensures
        final(canvas)@ == paint(
            old(canvas)@,
            round_rect(x as int, y as int, width as int, height as int, radius as int),
            solid(color),
        ),
{
    let ghost start = canvas@;
    let ghost (xi, yi, wi, hi, ri) = (x as int, y as int, width as int, height as int, radius as int);
    proof {
        lemma_paint_nothing(start, solid(color));
        lemma_paint_same_cover(
            start,
            |qx: int, qy: int| false,
            round_rect_before(xi, yi, wi, hi, ri, x as int, y as int),
            solid(color),
        );
    }
    let mut py: i64 = y as i64;
    while py < y as i64 + height as i64
        invariant
            x + width <= i32::MAX + 1,
            y + height <= i32::MAX + 1,
            xi == x,
            yi == y,
            wi == width,
            hi == height,
            ri == radius,
            y <= py,
            py <= y + height || height <= 0,
            canvas@.len() == canvas_len(),
            canvas@ == paint(start, round_rect_before(xi, yi, wi, hi, ri, x as int, py as int), solid(color)),
        decreases y + height - py,
    {
        let mut px: i64 = x as i64;
        while px < x as i64 + width as i64
            invariant
                x + width <= i32::MAX + 1,
                y + height <= i32::MAX + 1,
                xi == x,
                yi == y,
                wi == width,
                hi == height,
                ri == radius,
                y <= py < y + height,
                x <= px,
                px <= x + width || width <= 0,
                canvas@.len() == canvas_len(),
                canvas@ == paint(start, round_rect_before(xi, yi, wi, hi, ri, px as int, py as int), solid(color)),
            decreases x + width - px,
        {
            let ghost a = round_rect_before(xi, yi, wi, hi, ri, px as int, py as int);
            let ghost a2 = round_rect_before(xi, yi, wi, hi, ri, px + 1, py as int);
            if in_round_rect(x, y, width, height, radius, px as i32, py as i32) {
                put_pixel(canvas, px as i32, py as i32, color);
                proof {
                    lemma_paint_union(start, a, single(px as int, py as int), solid(color));
                    lemma_paint_same_cover(
                        start,
                        |qx: int, qy: int| a(qx, qy) || single(px as int, py as int)(qx, qy),
                        a2,
                        solid(color),
                    );
                }
            } else {
                proof {
                    lemma_paint_same_cover(start, a, a2, solid(color));
                }
            }
            px = px + 1;
        }
        proof {
            lemma_paint_same_cover(
                start,
                round_rect_before(xi, yi, wi, hi, ri, px as int, py as int),
                round_rect_before(xi, yi, wi, hi, ri, x as int, py + 1),
                solid(color),
            );
        }
        py = py + 1;
    }
    proof {
        lemma_paint_same_cover(
            start,
            round_rect_before(xi, yi, wi, hi, ri, x as int, py as int),
            round_rect(xi, yi, wi, hi, ri),
            solid(color),
        );
    }
}

/// Fills the rectangle at `(x, y)` of size `width` by `height`, corners
/// rounded to `radius`, with `color`.
pub fn fill_round_rect(
    canvas: &mut Vec<u8>,
    x: i32,
    y: i32,
    width: i32,
    height: i32,
    radius: i32,
    color: [u8; 4],
)
    requires
        old(canvas)@.len() == canvas_len(),
        span_fits(x, width),
        span_fits(y, height),
    ensures
        final(canvas)@ == paint(
            old(canvas)@,
            round_rect(x as int, y as int, width as int, height as int, radius as int),
            solid(color),
        ),
{
    paint_round_rect(canvas, x, y, width, height, radius, color);
}

} // verus!
