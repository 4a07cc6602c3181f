//! What the overlay draws: text in its pixel font, the activity card, and
//! a frame of the pet's spritesheet.
use vstd::prelude::*;

use crate::pets_windows::canvas::{
    canvas_len, paint_round_rect, lemma_paint_same_cover, lemma_paint_union, paint,
    round_rect, round_rect_covers, solid,
};
use crate::pets_windows::glyph::{glyph, glyph_bit, glyph_bit_set, glyph_rows};
use crate::text::ascii_upper;

verus! {

/// `d` lies in the `k`-th block of `s` consecutive integers exactly when
/// `d / s == k`.
pub proof fn lemma_div_block(d: int, s: int, k: int)
    requires
        s > 0,
    ensures
        (k * s <= d < k * s + s) <==> d / s == k,
{
    if k * s <= d && d < k * s + s {
        vstd::arithmetic::div_mod::lemma_fundamental_div_mod_converse(d, s, k, d - k * s);
    }
    if d / s == k {
        vstd::arithmetic::div_mod::lemma_fundamental_div_mod(d, s);
        vstd::arithmetic::div_mod::lemma_mod_bound(d, s);
        assert(s * (d / s) == k * s) by (nonlinear_arith)
            requires
                d / s == k,
        ;
    }
}

/// Whether pixel `(px, py)` is lit when `ch` is drawn with its top-left
/// corner at `(x, y)`, each font pixel a `scale` by `scale` square.
pub open spec fn char_covers(x: int, y: int, ch: char, scale: int, px: int, py: int) -> bool {
    scale > 0 && {
        let c = (px - x) / scale;
        let r = (py - y) / scale;
        0 <= c < 5 && 0 <= r < 7 && glyph_bit(glyph_rows(ascii_upper(ch))[r], c)
    }
}

/// The pixels lit when drawing `ch` at `(x, y)`.
pub open spec fn char_shape(x: int, y: int, ch: char, scale: int) -> spec_fn(int, int) -> bool {
    |px: int, py: int| char_covers(x, y, ch, scale, px, py)
}

/// The pixels of `ch` in font rows before `row`, and in row `row` before
/// column `col`.
pub open spec fn char_before(x: int, y: int, ch: char, scale: int, row: int, col: int) -> spec_fn(
    int,
    int,
) -> bool {
    |px: int, py: int|
        char_covers(x, y, ch, scale, px, py) && {
            let c = (px - x) / scale;
            let r = (py - y) / scale;
            r < row || (r == row && c < col)
        }
}

/// The canvas after drawing `ch` at `(x, y)`.
pub open spec fn char_canvas(
    canvas: Seq<u8>,
    x: int,
    y: int,
    ch: char,
    scale: int,
    color: [u8; 4],
) -> Seq<u8> {
    paint(canvas, char_shape(x, y, ch, scale), solid(color))
}

/// Coordinates and scale for which the pixels of a character lie within
/// `i32`: with a positive scale its last column is `x + 5 * scale - 1` and
/// its last row `y + 7 * scale - 1`; with any other scale nothing is drawn.
pub open spec fn char_args_ok(x: i32, y: i32, scale: i32) -> bool {
    scale > 0 ==> x + 5 * scale - 1 <= i32::MAX && y + 7 * scale - 1 <= i32::MAX
}

/// The block of font pixel `(row, col)` is the rectangle the character
/// covers there.
proof fn lemma_block_cover(x: int, y: int, scale: int, row: int, col: int, px: int, py: int)
    requires
        scale > 0,
    ensures
        round_rect_covers(x + col * scale, y + row * scale, scale, scale, 0, px, py) <==> ((px
            - x) / scale == col && (py - y) / scale == row),
{
    lemma_div_block(px - x, scale, col);
    lemma_div_block(py - y, scale, row);
    assert((col * scale <= px - x < col * scale + scale) <==> (x + col * scale <= px < x + col
        * scale + scale));
}

/// Draws `ch` with its top-left corner at `(x, y)`, each font pixel a
/// `scale` by `scale` square of `color`.
pub fn draw_char(canvas: &mut Vec<u8>, x: i32, y: i32, ch: char, scale: i32, color: [u8; 4])
    requires
        old(canvas)@.len() == canvas_len(),
        char_args_ok(x, y, scale),
    ensures
        final(canvas)@ == char_canvas(old(canvas)@, x as int, y as int, ch, scale as int, color),
{
    let ghost start = canvas@;
    let ghost (xi, yi, si) = (x as int, y as int, scale as int);
    if scale <= 0 {
        proof {
            lemma_paint_same_cover(
                start,
                char_shape(xi, yi, ch, si),
                |px: int, py: int| false,
                solid(color),
            );
            crate::pets_windows::canvas::lemma_paint_nothing(start, solid(color));
        }
        return;
    }
    let rows = glyph(ch);
    proof {
        lemma_paint_same_cover(
            start,
            char_before(xi, yi, ch, si, 0, 0),
            |px: int, py: int| false,
            solid(color),
        );
        crate::pets_windows::canvas::lemma_paint_nothing(start, solid(color));
    }
    let mut row: usize = 0;
    while row < 7
        invariant
            char_args_ok(x, y, scale),
            scale > 0,
            xi == x,
            yi == y,
            si == scale,
            rows@ == glyph_rows(ascii_upper(ch)),
            row <= 7,
            canvas@.len() == canvas_len(),
            canvas@ == paint(start, char_before(xi, yi, ch, si, row as int, 0), solid(color)),
        decreases 7 - row,
    {
        let bits = rows[row];
        let mut col: u8 = 0;
        while col < 5
            invariant
                char_args_ok(x, y, scale),
                scale > 0,
                xi == x,
                yi == y,
                si == scale,
                rows@ == glyph_rows(ascii_upper(ch)),
                row < 7,
                bits == rows@[row as int],
                col <= 5,
                canvas@.len() == canvas_len(),
                canvas@ == paint(
                    start,
                    char_before(xi, yi, ch, si, row as int, col as int),
                    solid(color),
                ),
            decreases 5 - col,
        {
            let ghost before = char_before(xi, yi, ch, si, row as int, col as int);
            let ghost after = char_before(xi, yi, ch, si, row as int, col as int + 1);
            assert(0 <= col * scale <= 4 * scale) by (nonlinear_arith)
                requires
                    0 <= col < 5,
                    scale > 0,
            ;
            assert(0 <= row * scale <= 6 * scale) by (nonlinear_arith)
                requires
                    0 <= row < 7,
                    scale > 0,
            ;
            let bx: i32 = (x as i64 + (col as i64) * (scale as i64)) as i32;
            let by: i32 = (y as i64 + (row as i64) * (scale as i64)) as i32;
            if glyph_bit_set(bits, col) {
                let ghost block = round_rect(bx as int, by as int, si, si, 0);
                paint_round_rect(canvas, bx, by, scale, scale, 0, color);
                proof {
                    assert forall|px: int, py: int| !(#[trigger] before(px, py) && block(px, py)) by {
                        lemma_block_cover(xi, yi, si, row as int, col as int, px, py);
                    }
                    lemma_paint_union(start, before, block, solid(color));
                    assert forall|px: int, py: int|
                        #[trigger] after(px, py) == (before(px, py) || block(px, py)) by {
                        lemma_block_cover(xi, yi, si, row as int, col as int, px, py);
                    }
                    lemma_paint_same_cover(
                        start,
                        |px: int, py: int| before(px, py) || block(px, py),
                        after,
                        solid(color),
                    );
                }
            } else {
                proof {
                    assert forall|px: int, py: int| #[trigger] after(px, py) == before(px, py) by {
                        if (px - xi) / si == col as int && (py - yi) / si == row as int {
                        }
                    }
                    lemma_paint_same_cover(start, before, after, solid(color));
                }
            }
            col = col + 1;
        }
        proof {
            let b = char_before(xi, yi, ch, si, row as int, 5);
            let a = char_before(xi, yi, ch, si, row as int + 1, 0);
            assert forall|px: int, py: int| #[trigger] a(px, py) == b(px, py) by {}
            lemma_paint_same_cover(start, b, a, solid(color));
        }
        row = row + 1;
    }
    proof {
        let b = char_before(xi, yi, ch, si, 7, 0);
        assert forall|px: int, py: int| #[trigger] b(px, py) == char_shape(xi, yi, ch, si)(
            px,
            py,
        ) by {}
        lemma_paint_same_cover(start, b, char_shape(xi, yi, ch, si), solid(color));
    }
}

/// At most this many characters of a text are drawn.
pub const MAX_TEXT_CHARS: usize = 48;

/// The canvas after drawing `chars` on row `y` from column `cursor` on:
/// each character is drawn where the cursor is and moves it `6 * scale`
/// to the right; a newline returns the cursor to `x`.
pub open spec fn text_canvas_from(
    canvas: Seq<u8>,
    x: int,
    cursor: int,
    y: int,
    chars: Seq<char>,
    scale: int,
    color: [u8; 4],
) -> Seq<u8>
    decreases chars.len(),
{
    if chars.len() == 0 {
        canvas
    } else if chars[0] == '\n' {
        text_canvas_from(canvas, x, x, y, chars.drop_first(), scale, color)
    } else {
        text_canvas_from(
            char_canvas(canvas, cursor, y, chars[0], scale, color),
            x,
            cursor + 6 * scale,
            y,
            chars.drop_first(),
            scale,
            color,
        )
    }
}

/// The first [`MAX_TEXT_CHARS`] characters of `text`.
pub open spec fn drawn_prefix(text: Seq<char>) -> Seq<char> {
    if text.len() <= MAX_TEXT_CHARS {
        text
    } else {
        text.take(MAX_TEXT_CHARS as int)
    }
}

/// The canvas after drawing `text` at `(x, y)`.
pub open spec fn text_canvas(
    canvas: Seq<u8>,
    x: int,
    y: int,
    text: Seq<char>,
    scale: int,
    color: [u8; 4],
) -> Seq<u8> {
    text_canvas_from(canvas, x, x, y, drawn_prefix(text), scale, color)
}

/// The number of characters other than newline from the last newline
/// before `i` through `i`: how far the cursor has moved, in characters,
/// once the character at `i` is drawn.
pub open spec fn run_through(chars: Seq<char>, i: int) -> nat
    decreases i + 1,
{
    if i < 0 || chars[i] == '\n' {
        0
    } else {
        run_through(chars, i - 1) + 1
    }
}

/// Whether the cursor can move `run` characters of `6 * scale` pixels from
/// `x`, with each character's pixels, down to row `y + 7 * scale - 1`,
/// within `i32`; the step `6 * scale` is itself an `i32`.
pub open spec fn cursor_fits(x: i32, y: i32, scale: i32, run: int) -> bool {
    &&& i32::MIN <= 6 * scale <= i32::MAX
    &&& scale > 0 ==> x + 6 * scale * run <= i32::MAX && y + 7 * scale - 1 <= i32::MAX
    &&& scale < 0 ==> x + 6 * scale * run >= i32::MIN
}

/// Coordinates and scale for which every cursor position and pixel of
/// `text` drawn at `(x, y)` lies within `i32`.
pub open spec fn text_args_ok(x: i32, y: i32, scale: i32, text: Seq<char>) -> bool {
    forall|i: int|
        0 <= i < drawn_prefix(text).len() && drawn_prefix(text)[i] != '\n' ==> cursor_fits(
            x,
            y,
            scale,
            #[trigger] run_through(drawn_prefix(text), i) as int,
        )
}

/// Room for the longest text drawn: [`MAX_TEXT_CHARS`] characters on one
/// line.
pub open spec fn room_for_any_text(x: i32, y: i32, scale: i32) -> bool {
    cursor_fits(x, y, scale, MAX_TEXT_CHARS as int)
}

proof fn lemma_run_bounded(chars: Seq<char>, i: int)
    ensures
        run_through(chars, i) <= if i < 0 {
            0
        } else {
            i + 1
        },
    decreases i + 1,
{
    if i >= 0 {
        lemma_run_bounded(chars, i - 1);
    }
}

/// With room for the longest text, any text fits.
pub proof fn lemma_room_for_text(x: i32, y: i32, scale: i32, text: Seq<char>)
    requires
        room_for_any_text(x, y, scale),
    ensures
        text_args_ok(x, y, scale, text),
{
    assert forall|i: int|
        0 <= i < drawn_prefix(text).len() && drawn_prefix(text)[i] != '\n' implies cursor_fits(
        x,
        y,
        scale,
        #[trigger] run_through(drawn_prefix(text), i) as int,
    ) by {
        let r = run_through(drawn_prefix(text), i) as int;
        lemma_run_bounded(drawn_prefix(text), i);
        assert(r <= MAX_TEXT_CHARS);
        assert(scale > 0 ==> 6 * scale * r <= 6 * scale * MAX_TEXT_CHARS) by (nonlinear_arith)
            requires
                0 <= r <= MAX_TEXT_CHARS,
        ;
        assert(scale < 0 ==> 6 * scale * r >= 6 * scale * MAX_TEXT_CHARS) by (nonlinear_arith)
            requires
                0 <= r <= MAX_TEXT_CHARS,
        ;
    }
}

/// Draws the first [`MAX_TEXT_CHARS`] characters of `text` from `(x, y)`.
pub fn draw_text(canvas: &mut Vec<u8>, x: i32, y: i32, text: &str, scale: i32, color: [u8; 4])
    requires
        old(canvas)@.len() == canvas_len(),
        text_args_ok(x, y, scale, text@),
    ensures
        final(canvas)@ == text_canvas(old(canvas)@, x as int, y as int, text@, scale as int, color),
        final(canvas)@.len() == canvas_len(),
{
    let chars = crate::text::chars_of(text);
    draw_chars(canvas, x, y, &chars, scale, color);
}

/// Draws the first [`MAX_TEXT_CHARS`] characters of `chars` from `(x, y)`.
pub fn draw_chars(
    canvas: &mut Vec<u8>,
    x: i32,
    y: i32,
    chars: &Vec<char>,
    scale: i32,
    color: [u8; 4],
)
    requires
        old(canvas)@.len() == canvas_len(),
        text_args_ok(x, y, scale, chars@),
    ensures
        final(canvas)@ == text_canvas(old(canvas)@, x as int, y as int, chars@, scale as int, color),
        final(canvas)@.len() == canvas_len(),
{
    let n: usize = if chars.len() < MAX_TEXT_CHARS {
        chars.len()
    } else {
        MAX_TEXT_CHARS
    };
    let ghost shown = drawn_prefix(chars@);
    let ghost target = text_canvas(canvas@, x as int, y as int, chars@, scale as int, color);
    assert(shown == chars@.subrange(0, n as int));
    assert(shown.subrange(0, n as int) == shown);
    let mut cursor: i32 = x;
    let ghost mut run: int = 0;
    let mut i: usize = 0;
    while i < n
        invariant
            text_args_ok(x, y, scale, chars@),
            shown == drawn_prefix(chars@),
            n <= MAX_TEXT_CHARS,
            n <= chars@.len(),
            shown == chars@.subrange(0, n as int),
            i <= n,
            run == run_through(shown, i - 1),
            cursor == x + 6 * scale * run,
            canvas@.len() == canvas_len(),
            target == text_canvas_from(
                canvas@,
                x as int,
                cursor as int,
                y as int,
                shown.subrange(i as int, n as int),
                scale as int,
                color,
            ),
        decreases n - i,
    {
        let ch = chars[i];
        assert(shown.subrange(i as int, n as int)[0] == ch);
        assert(shown.subrange(i as int, n as int).drop_first() == shown.subrange(i + 1, n as int));
        if ch == '\n' {
            assert(shown[i as int] == ch);
            cursor = x;
            proof {
                run = 0;
            }
        } else {
            assert(shown[i as int] == ch);
            assert(run_through(shown, i as int) == run + 1);
            assert(cursor_fits(x, y, scale, run + 1));
            assert(6 * scale * (run + 1) == 6 * scale * run + 6 * scale) by (nonlinear_arith);
            assert(scale > 0 ==> 6 * scale * run >= 0) by (nonlinear_arith)
                requires
                    run >= 0,
            ;
            assert(scale < 0 ==> 6 * scale * run <= 0) by (nonlinear_arith)
                requires
                    run >= 0,
            ;
            draw_char(canvas, cursor, y, ch, scale, color);
            cursor = cursor + 6 * scale;
            proof {
                run = run + 1;
            }
        }
        i = i + 1;
    }
    assert(shown.subrange(n as int, n as int).len() == 0);
}

} // verus!
