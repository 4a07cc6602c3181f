//! Word-wrapped text on the activity card: the words of a text, the lines
//! they are laid out on, and which of those lines are drawn.
use vstd::prelude::*;

use crate::pets_windows::canvas::canvas_len;
use crate::pets_windows::draw::{draw_chars, lemma_room_for_text, text_canvas, MAX_TEXT_CHARS};
use crate::text::{
    chars_of, extend_chars, find_char, is_white_space, is_whitespace, lemma_find_char,
    lemma_utf8_len_concat, lemma_utf8_len_subrange, sub_chars, utf8_len, utf8_len_of,
};

verus! {

/// Position of the first character of `s` at or after `i` that is not
/// white space, or `s.len()`.
pub open spec fn skip_space(s: Seq<char>, i: int) -> int
    decreases s.len() - i,
{
    if i >= s.len() {
        s.len() as int
    } else if !is_white_space(s[i]) {
        i
    } else {
        skip_space(s, i + 1)
    }
}

/// Position of the first white space of `s` at or after `i`, or `s.len()`.
pub open spec fn skip_word(s: Seq<char>, i: int) -> int
    decreases s.len() - i,
{
    if i >= s.len() {
        s.len() as int
    } else if is_white_space(s[i]) {
        i
    } else {
        skip_word(s, i + 1)
    }
}

pub proof fn lemma_skip_space_bounds(s: Seq<char>, i: int)
    requires
        0 <= i <= s.len(),
    ensures
        i <= skip_space(s, i) <= s.len(),
        skip_space(s, i) < s.len() ==> !is_white_space(s[skip_space(s, i)]),
    decreases s.len() - i,
{
    if i < s.len() && is_white_space(s[i]) {
        lemma_skip_space_bounds(s, i + 1);
    }
}

pub proof fn lemma_skip_word_bounds(s: Seq<char>, i: int)
    requires
        0 <= i <= s.len(),
    ensures
        i <= skip_word(s, i) <= s.len(),
        forall|j: int| i <= j < skip_word(s, i) ==> !is_white_space(#[trigger] s[j]),
    decreases s.len() - i,
{
    if i < s.len() && !is_white_space(s[i]) {
        lemma_skip_word_bounds(s, i + 1);
    }
}

proof fn lemma_skip_space_at(s: Seq<char>, i: int, a: int)
    requires
        0 <= i <= a <= s.len(),
        forall|j: int| i <= j < a ==> is_white_space(#[trigger] s[j]),
        a == s.len() || !is_white_space(s[a]),
    ensures
        skip_space(s, i) == a,
    decreases a - i,
{
    if i < a {
        lemma_skip_space_at(s, i + 1, a);
    }
}

proof fn lemma_skip_word_at(s: Seq<char>, i: int, k: int)
    requires
        0 <= i <= k <= s.len(),
        forall|j: int| i <= j < k ==> !is_white_space(#[trigger] s[j]),
        k == s.len() || is_white_space(s[k]),
    ensures
        skip_word(s, k) == k,
        skip_word(s, i) == k,
    decreases k - i,
{
    if i < k {
        lemma_skip_word_at(s, i + 1, k);
    }
}

/// The words of `s` from position `i` on: the maximal runs of characters
/// that are not white space, in order (`str::split_whitespace`).
pub open spec fn words_from(s: Seq<char>, i: int) -> Seq<Seq<char>>
    decreases s.len() - i,
{
    if i < 0 || i >= s.len() {
        Seq::empty()
    } else {
        let a = skip_space(s, i);
        if a >= s.len() {
            Seq::empty()
        } else {
            let k = skip_word(s, a);
            proof {
                lemma_skip_space_bounds(s, i);
                lemma_skip_word_bounds(s, a);
                lemma_skip_word_bounds(s, a + 1);
            }
            seq![s.subrange(a, k)] + words_from(s, k)
        }
    }
}

/// The words of `s`.
pub open spec fn words_of(s: Seq<char>) -> Seq<Seq<char>> {
    words_from(s, 0)
}

/// The lines that `words` are laid out on when the line being filled is
/// `current`: a word joins the current line after a space unless the line
/// is not empty and would then be longer than `max` bytes, in which case
/// the current line is closed and the word starts the next one.
pub open spec fn lines_from(words: Seq<Seq<char>>, max: int, current: Seq<char>) -> Seq<Seq<char>>
    decreases words.len(),
{
    if words.len() == 0 {
        if current.len() > 0 {
            seq![current]
        } else {
            Seq::empty()
        }
    } else {
        let w = words[0];
        if current.len() > 0 && utf8_len(current) + 1 + utf8_len(w) > max {
            seq![current] + lines_from(words.drop_first(), max, w)
        } else {
            lines_from(
                words.drop_first(),
                max,
                if current.len() > 0 {
                    current + seq![' '] + w
                } else {
                    w
                },
            )
        }
    }
}

/// The lines `text` is wrapped into at `max` bytes per line.
pub open spec fn wrapped_lines(text: Seq<char>, max: int) -> Seq<Seq<char>> {
    lines_from(words_of(text), max, Seq::empty())
}

/// Distance in pixels between wrapped lines.
pub const LINE_HEIGHT: i32 = 14;

/// Number of wrapped lines drawn in full.
pub const MAX_LINES: usize = 4;

/// The canvas after drawing `lines`, the first at row `y` and each next one
/// [`LINE_HEIGHT`] lower.
pub open spec fn lines_canvas(
    canvas: Seq<u8>,
    x: int,
    y: int,
    lines: Seq<Seq<char>>,
    color: [u8; 4],
) -> Seq<u8>
    decreases lines.len(),
{
    if lines.len() == 0 {
        canvas
    } else {
        text_canvas(
            lines_canvas(canvas, x, y, lines.drop_last(), color),
            x,
            y + LINE_HEIGHT * (lines.len() - 1),
            lines.last(),
            1,
            color,
        )
    }
}

/// The first word of a laid-out line.
pub open spec fn first_word(line: Seq<char>) -> Seq<char> {
    line.take(find_char(line, ' '))
}

/// The canvas after drawing `text` wrapped at `max` bytes per line from
/// `(x, y)`: the first [`MAX_LINES`] lines, and of a further line only its
/// first word.
pub open spec fn wrapped_canvas(
    canvas: Seq<u8>,
    x: int,
    y: int,
    text: Seq<char>,
    max: int,
    color: [u8; 4],
) -> Seq<u8> {
    let lines = wrapped_lines(text, max);
    if lines.len() <= MAX_LINES {
        lines_canvas(canvas, x, y, lines, color)
    } else {
        text_canvas(
            lines_canvas(canvas, x, y, lines.take(MAX_LINES as int), color),
            x,
            y + LINE_HEIGHT * MAX_LINES,
            first_word(lines[MAX_LINES as int]),
            1,
            color,
        )
    }
}

/// A line being filled with a word of its own first keeps that word, then
/// a space or nothing.
proof fn lemma_lines_head(words: Seq<Seq<char>>, max: int, cur: Seq<char>)
    requires
        cur.len() > 0,
    ensures
        lines_from(words, max, cur).len() >= 1,
        lines_from(words, max, cur)[0].len() >= cur.len(),
        lines_from(words, max, cur)[0].subrange(0, cur.len() as int) == cur,
        lines_from(words, max, cur)[0].len() > cur.len() ==> lines_from(words, max, cur)[0][cur.len() as int]
            == ' ',
    decreases words.len(),
{
    if words.len() == 0 {
        assert(lines_from(words, max, cur) == seq![cur]);
        assert(cur.subrange(0, cur.len() as int) == cur);
    } else {
        let w = words[0];
        if utf8_len(cur) + 1 + utf8_len(w) > max {
            assert(lines_from(words, max, cur) == seq![cur] + lines_from(
                words.drop_first(),
                max,
                w,
            ));
            assert(cur.subrange(0, cur.len() as int) == cur);
        } else {
            let next = cur + seq![' '] + w;
            lemma_lines_head(words.drop_first(), max, next);
            let l = lines_from(words.drop_first(), max, next);
            assert(l[0].subrange(0, cur.len() as int) == l[0].subrange(0, next.len() as int).subrange(
                0,
                cur.len() as int,
            ));
            assert(next.subrange(0, cur.len() as int) == cur);
            assert(l[0][cur.len() as int] == l[0].subrange(0, next.len() as int)[cur.len() as int]);
        }
    }
}

/// Draws `text` wrapped at `max_chars` bytes per line from `(x, y)`, one
/// line every [`LINE_HEIGHT`] pixels: at most [`MAX_LINES`] lines in full,
/// then only the first word of the next.
pub fn draw_wrapped_text(
    canvas: &mut Vec<u8>,
    x: i32,
    y: i32,
    text: &str,
    max_chars: usize,
    color: [u8; 4],
)
    requires
        old(canvas)@.len() == canvas_len(),
        x + 6 * MAX_TEXT_CHARS <= i32::MAX,
        y + LINE_HEIGHT * MAX_LINES + 6 <= i32::MAX,
        utf8_len(text@) <= usize::MAX,
    ensures
        final(canvas)@ == wrapped_canvas(
            old(canvas)@,
            x as int,
            y as int,
            text@,
            max_chars as int,
            color,
        ),
        final(canvas)@.len() == canvas_len(),
{
    let ghost start = canvas@;
    let ghost max = max_chars as int;
    let chars = chars_of(text);
    let n = chars.len();
    let ghost s = chars@;
    let ghost full = wrapped_lines(text@, max);
    let ghost mut done: Seq<Seq<char>> = Seq::empty();
    let mut current: Vec<char> = Vec::new();
    let mut cur_len: usize = 0;
    let mut line_y: i32 = y;
    let mut i: usize = 0;
    let mut finished: bool = false;
    let mut stopped: bool = false;
    proof {
        lemma_utf8_len_concat(Seq::<char>::empty(), Seq::<char>::empty());
        assert(Seq::<char>::empty() + Seq::<char>::empty() == Seq::<char>::empty());
        assert(done + lines_from(words_from(s, 0), max, current@) == full);
    }
    while !finished
        invariant
            canvas@.len() == canvas_len(),
            x + 6 * MAX_TEXT_CHARS <= i32::MAX,
            y + LINE_HEIGHT * MAX_LINES + 6 <= i32::MAX,
            s == text@,
            chars@ == s,
            n == s.len(),
            utf8_len(s) <= usize::MAX,
            max == max_chars,
            full == wrapped_lines(text@, max),
            i <= n,
            line_y == y + LINE_HEIGHT * done.len(),
            canvas@ == lines_canvas(start, x as int, y as int, done, color),
            full == done + lines_from(words_from(s, i as int), max, current@),
            cur_len == utf8_len(current@),
            !stopped ==> done.len() <= 3,
            stopped ==> finished && done.len() == 4 && current@.len() > 0 && forall|j: int|
                0 <= j < current@.len() ==> !is_white_space(#[trigger] current@[j]),
            finished && !stopped ==> words_from(s, i as int).len() == 0,
        decreases n - i + (if finished {
            0int
        } else {
            1int
        }),
    {
        let ghost i0 = i as int;
        while i < n && is_whitespace(chars[i])
            invariant
                i0 <= i <= n,
                n == s.len(),
                chars@ == s,
                forall|j: int| i0 <= j < i ==> is_white_space(#[trigger] s[j]),
            decreases n - i,
        {
            i = i + 1;
        }
        proof {
            lemma_skip_space_at(s, i0, i as int);
        }
        if i >= n {
            finished = true;
            i = n;
        } else {
            let a = i;
            while i < n && !is_whitespace(chars[i])
                invariant
                    a <= i <= n,
                    n == s.len(),
                    chars@ == s,
                    forall|j: int| a <= j < i ==> !is_white_space(#[trigger] s[j]),
                decreases n - i,
            {
                i = i + 1;
            }
            proof {
                lemma_skip_word_at(s, a as int, i as int);
                lemma_utf8_len_subrange(s, a as int, i as int);
                assert(words_from(s, i0) == seq![s.subrange(a as int, i as int)] + words_from(
                    s,
                    i as int,
                ));
            }
            let word = sub_chars(&chars, a, i);
            let word_len = utf8_len_of(&word);
            let ghost ws = words_from(s, i0);
            assert(ws[0] == word@);
            assert(ws.drop_first() == words_from(s, i as int));
            let too_long: bool = if current.len() == 0 {
                false
            } else if cur_len >= max_chars {
                true
            } else {
                word_len >= max_chars - cur_len
            };
            if too_long {
                assert(lines_from(ws, max, current@) == seq![current@] + lines_from(
                    words_from(s, i as int),
                    max,
                    word@,
                ));
                proof {
                    lemma_room_for_text(x, line_y, 1, current@);
                }
                draw_chars(canvas, x, line_y, &current, 1, color);
                proof {
                    assert(done.push(current@).drop_last() == done);
                    assert(done + (seq![current@] + lines_from(words_from(s, i as int), max, word@))
                        == done.push(current@) + lines_from(words_from(s, i as int), max, word@));
                    done = done.push(current@);
                }
                line_y = line_y + LINE_HEIGHT;
                current = word;
                cur_len = word_len;
            } else {
                if current.len() == 0 {
                    assert(lines_from(ws, max, current@) == lines_from(
                        words_from(s, i as int),
                        max,
                        word@,
                    ));
                    current = word;
                    cur_len = word_len;
                } else {
                    let ghost old_cur = current@;
                    assert(lines_from(ws, max, current@) == lines_from(
                        words_from(s, i as int),
                        max,
                        current@ + seq![' '] + word@,
                    ));
                    current.push(' ');
                    extend_chars(&mut current, &word);
                    proof {
                        lemma_utf8_len_concat(old_cur, seq![' ']);
                        lemma_utf8_len_concat(old_cur + seq![' '], word@);
                        crate::text::lemma_utf8_len_push(Seq::<char>::empty(), ' ');
                        assert(Seq::<char>::empty().push(' ') == seq![' ']);
                        lemma_utf8_len_concat(Seq::<char>::empty(), Seq::<char>::empty());
                        assert(Seq::<char>::empty() + Seq::<char>::empty() == Seq::<char>::empty());
                        assert(old_cur.push(' ') == old_cur + seq![' ']);
                    }
                    cur_len = cur_len + 1 + word_len;
                }
            }
            if line_y > y + 42 {
                stopped = true;
                finished = true;
            }
        }
    }
    if current.len() > 0 {
        proof {
            lemma_room_for_text(x, line_y, 1, current@);
        }
        draw_chars(canvas, x, line_y, &current, 1, color);
    }
    proof {
        if stopped {
            let rest = lines_from(words_from(s, i as int), max, current@);
            lemma_lines_head(words_from(s, i as int), max, current@);
            assert(full.take(4) == done);
            assert(full[4] == rest[0]);
            let l = rest[0];
            assert forall|j: int| 0 <= j < current@.len() implies l[j] != ' ' by {
                assert(l[j] == l.subrange(0, current@.len() as int)[j]);
                assert(is_white_space(' '));
            }
            lemma_find_char(l, ' ', current@.len() as int);
            assert(first_word(l) == current@);
        } else {
            assert(words_from(s, i as int).len() == 0);
            if current@.len() > 0 {
                assert(full == done.push(current@));
                assert(done.push(current@).drop_last() == done);
            } else {
                assert(full == done);
            }
        }
    }
}

} // verus!
