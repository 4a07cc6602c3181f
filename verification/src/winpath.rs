//! Windows-facing path and PowerShell text shared by both WSL bridges.
use vstd::prelude::*;
use vstd::string::*;

use crate::text::{
    ascii_upper, chars_of, extend_chars, find_char, find_char_index, is_single_ascii, matches_at,
    occurs_at, replace_char, replace_chars, string_of, sub_chars, to_ascii_upper,
};

verus! {

/// `value` as a single-quoted PowerShell literal: every `'` doubled and the
/// whole wrapped in `'`.
pub open spec fn pwsh_quoted(value: Seq<char>) -> Seq<char> {
    seq!['\''] + replace_char(value, '\'', seq!['\'', '\'']) + seq!['\'']
}

/// The text PowerShell reads from the body of a single-quoted literal,
/// left to right: `''` stands for one `'`, any other character for itself;
/// a lone `'` would end the literal early, so such a body reads as nothing.
pub open spec fn literal_body_value(body: Seq<char>) -> Option<Seq<char>>
    decreases body.len(),
{
    if body.len() == 0 {
        Some(Seq::empty())
    } else if body[0] == '\'' {
        if body.len() >= 2 && body[1] == '\'' {
            match literal_body_value(body.skip(2)) {
                Some(v) => Some(seq!['\''] + v),
                None => None,
            }
        } else {
            None
        }
    } else {
        match literal_body_value(body.drop_first()) {
            Some(v) => Some(seq![body[0]] + v),
            None => None,
        }
    }
}

/// The text a single-quoted PowerShell literal stands for, if `literal` is
/// exactly one such literal.
pub open spec fn literal_value(literal: Seq<char>) -> Option<Seq<char>> {
    if literal.len() >= 2 && literal[0] == '\'' && literal.last() == '\'' {
        literal_body_value(literal.subrange(1, literal.len() - 1))
    } else {
        None
    }
}

proof fn lemma_body_value_concat(x: Seq<char>, y: Seq<char>)
    requires
        literal_body_value(x) is Some,
    ensures
        literal_body_value(x + y) == match literal_body_value(y) {
            Some(b) => Some(literal_body_value(x)->0 + b),
            None => None::<Seq<char>>,
        },
    decreases x.len(),
{
    if x.len() == 0 {
        assert(x + y == y);
        match literal_body_value(y) {
            Some(b) => assert(Seq::<char>::empty() + b == b),
            None => {},
        }
    } else if x[0] == '\'' {
        lemma_body_value_concat(x.skip(2), y);
        assert((x + y).skip(2) == x.skip(2) + y);
        assert((x + y)[1] == x[1]);
        match literal_body_value(y) {
            Some(b) => {
                let v = literal_body_value(x.skip(2))->0;
                assert(seq!['\''] + (v + b) == (seq!['\''] + v) + b);
            },
            None => {},
        }
    } else {
        lemma_body_value_concat(x.drop_first(), y);
        assert((x + y).drop_first() == x.drop_first() + y);
        match literal_body_value(y) {
            Some(b) => {
                let v = literal_body_value(x.drop_first())->0;
                assert(seq![x[0]] + (v + b) == (seq![x[0]] + v) + b);
            },
            None => {},
        }
    }
}

proof fn lemma_doubled_body_reads_back(value: Seq<char>)
    ensures
        literal_body_value(replace_char(value, '\'', seq!['\'', '\''])) == Some(value),
    decreases value.len(),
{
    if value.len() > 0 {
        let init = value.drop_last();
        let piece: Seq<char> = if value.last() == '\'' {
            seq!['\'', '\'']
        } else {
            seq![value.last()]
        };
        lemma_doubled_body_reads_back(init);
        assert(literal_body_value(Seq::<char>::empty()) == Some(Seq::<char>::empty()));
        if value.last() == '\'' {
            assert(piece.skip(2) == Seq::<char>::empty());
            assert(seq!['\''] + Seq::<char>::empty() == seq!['\'']);
        } else {
            assert(piece.drop_first() == Seq::<char>::empty());
            assert(seq![value.last()] + Seq::<char>::empty() == seq![value.last()]);
        }
        assert(literal_body_value(piece) == Some(seq![value.last()]));
        lemma_body_value_concat(replace_char(init, '\'', seq!['\'', '\'']), piece);
        assert(init + seq![value.last()] == value);
    }
}

/// A quoted value is one PowerShell literal, and PowerShell reads it back
/// as exactly that value.
pub proof fn lemma_quoted_reads_back(value: Seq<char>)
    ensures
        literal_value(pwsh_quoted(value)) == Some(value),
{
    let body = replace_char(value, '\'', seq!['\'', '\'']);
    let q = pwsh_quoted(value);
    lemma_doubled_body_reads_back(value);
    assert(q.subrange(1, q.len() - 1) == body);
}

/// The number of times `c` occurs in `s`.
pub open spec fn count_char(s: Seq<char>, c: char) -> nat
    decreases s.len(),
{
    if s.len() == 0 {
        0
    } else {
        count_char(s.drop_last(), c) + if s.last() == c {
            1nat
        } else {
            0nat
        }
    }
}

/// Every run of `'` in `body` has even length: read left to right, each
/// `'` is followed by a second one.
pub open spec fn quotes_paired(body: Seq<char>) -> bool
    decreases body.len(),
{
    if body.len() == 0 {
        true
    } else if body[0] == '\'' {
        body.len() >= 2 && body[1] == '\'' && quotes_paired(body.skip(2))
    } else {
        quotes_paired(body.drop_first())
    }
}

/// `body` with each `''` replaced by `'`, scanning left to right as
/// `str::replace` does.
pub open spec fn collapse_quotes(body: Seq<char>) -> Seq<char>
    decreases body.len(),
{
    if body.len() == 0 {
        Seq::empty()
    } else if body.len() >= 2 && body[0] == '\'' && body[1] == '\'' {
        seq!['\''] + collapse_quotes(body.skip(2))
    } else {
        seq![body[0]] + collapse_quotes(body.drop_first())
    }
}

proof fn lemma_readable_body_is_paired(body: Seq<char>)
    requires
        literal_body_value(body) is Some,
    ensures
        quotes_paired(body),
        collapse_quotes(body) == literal_body_value(body)->0,
    decreases body.len(),
{
    if body.len() > 0 {
        if body[0] == '\'' {
            lemma_readable_body_is_paired(body.skip(2));
        } else {
            lemma_readable_body_is_paired(body.drop_first());
        }
    }
}

proof fn lemma_doubled_len(value: Seq<char>)
    ensures
        replace_char(value, '\'', seq!['\'', '\'']).len() == value.len() + count_char(value, '\''),
    decreases value.len(),
{
    if value.len() > 0 {
        lemma_doubled_len(value.drop_last());
    }
}

/// A quoted value starts and ends with `'`, is as long as the value plus
/// two plus its number of `'`, holds inside only even runs of `'`, and
/// turning each inner `''` back into `'` gives the value.
pub proof fn lemma_quote_shape(value: Seq<char>)
    ensures
        ({
            let q = pwsh_quoted(value);
            let body = q.subrange(1, q.len() - 1);
            &&& q.len() == value.len() + 2 + count_char(value, '\'')
            &&& q[0] == '\''
            &&& q.last() == '\''
            &&& quotes_paired(body)
            &&& collapse_quotes(body) == value
        }),
{
    let body = replace_char(value, '\'', seq!['\'', '\'']);
    let q = pwsh_quoted(value);
    lemma_doubled_len(value);
    lemma_doubled_body_reads_back(value);
    lemma_readable_body_is_paired(body);
    assert(q.subrange(1, q.len() - 1) == body);
}

/// The Windows drive path that a WSL drive mount `/mnt/<letter>/<tail>`
/// stands for, when `path` is one: `<LETTER>:\<tail with \ for />`.
/// The part after `/mnt/` up to the next `/` must be one ASCII character.
pub open spec fn mount_to_windows(path: Seq<char>) -> Option<Seq<char>> {
    if occurs_at(path, "/mnt/"@, 0) {
        let rest = path.skip("/mnt/"@.len() as int);
        let k = find_char(rest, '/');
        let drive = rest.take(k);
        let tail = if k < rest.len() {
            rest.skip(k + 1)
        } else {
            Seq::empty()
        };
        if is_single_ascii(drive) {
            Some(seq![ascii_upper(drive[0]), ':', '\\'] + replace_char(tail, '/', seq!['\\']))
        } else {
            None
        }
    } else {
        None
    }
}

/// Quotes `value` for a PowerShell command line.
pub fn pwsh_quote(value: &str) -> (quoted: String)
    ensures
        quoted@ == pwsh_quoted(value@),
{
    let v = chars_of(value);
    let doubled = vec!['\'', '\''];
    let body = replace_chars(&v, '\'', &doubled);
    let mut out: Vec<char> = Vec::new();
    out.push('\'');
    extend_chars(&mut out, &body);
    out.push('\'');
    string_of(&out)
}

/// Maps a WSL drive mount such as `/mnt/c/Users/x` to `C:\Users\x`;
/// `None` for any other path.
pub fn wsl_mount_to_windows_path(path: &str) -> (mapped: Option<String>)
    ensures
        match mapped {
            Some(m) => mount_to_windows(path@) == Some(m@),
            None => mount_to_windows(path@) is None,
        },
{
    let p = chars_of(path);
    let prefix = chars_of("/mnt/");
    if !matches_at(&p, &prefix, 0) {
        return None;
    }
    let rest = sub_chars(&p, prefix.len(), p.len());
    assert(rest@ == p@.skip(prefix@.len() as int));
    let k = find_char_index(&rest, '/');
    let drive = sub_chars(&rest, 0, k);
    assert(drive@ == rest@.take(k as int));
    let tail = if k < rest.len() {
        sub_chars(&rest, k + 1, rest.len())
    } else {
        Vec::new()
    };
    assert(k < rest.len() ==> tail@ == rest@.skip(k + 1));
    if drive.len() != 1 || (drive[0] as u32) >= 0x80 {
        return None;
    }
    let slash = vec!['\\'];
    let converted = replace_chars(&tail, '/', &slash);
    let mut out: Vec<char> = Vec::new();
    out.push(to_ascii_upper(drive[0]));
    out.push(':');
    out.push('\\');
    extend_chars(&mut out, &converted);
    assert(out@ == seq![ascii_upper(drive@[0]), ':', '\\'] + converted@);
    assert(tail@ == (if (k as int) < rest@.len() {
        rest@.skip(k + 1)
    } else {
        Seq::<char>::empty()
    }));
    proof {
        let r = path@.skip("/mnt/"@.len() as int);
        assert(r == rest@);
        assert(find_char(r, '/') == k as int);
        assert(is_single_ascii(drive@));
        assert(occurs_at(path@, "/mnt/"@, 0));
        assert(slash@ == seq!['\\']);
    }
    Some(string_of(&out))
}

/// How a helper is started on Windows from WSL: `powershell.exe` running a
/// script, with its standard streams piped by the caller.
pub struct PowershellLaunch {
    pub program: String,
    pub args: Vec<String>,
}

/// The `powershell.exe -NoProfile -Command <script>` launch of `script`.
pub fn powershell_launch(script: String) -> (launch: PowershellLaunch)
    ensures
        launch.program@ == "powershell.exe"@,
        launch.args@.len() == 3,
        launch.args@[0]@ == "-NoProfile"@,
        launch.args@[1]@ == "-Command"@,
        launch.args@[2]@ == script@,
{
    let mut args: Vec<String> = Vec::new();
    args.push(String::from_str("-NoProfile"));
    args.push(String::from_str("-Command"));
    args.push(script);
    PowershellLaunch { program: String::from_str("powershell.exe"), args }
}

} // verus!
