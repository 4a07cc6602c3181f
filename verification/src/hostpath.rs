//! The host's path operations, as `std::path` performs them for the Linux
//! (WSL) side where the bridges run: parent and file name through
//! `std::path` itself, joining written out and proved against its
//! statement.
use vstd::prelude::*;

use crate::text::{chars_of, extend_chars, string_of};

verus! {

/// The parent directory `std::path::Path::parent` gives for `path`.
pub uninterp spec fn parent_of(path: Seq<char>) -> Option<Seq<char>>;

/// The final component `std::path::Path::file_name` gives for `path`.
pub uninterp spec fn file_name_of(path: Seq<char>) -> Option<Seq<char>>;

/// The path `std::path::Path::join` builds from `base` and `part` on a Unix
/// host: `part` itself when it is absolute (starts with `/`); otherwise
/// `base`, then a `/` when `base` is not empty and does not end in one,
/// then `part`.
pub open spec fn joined(base: Seq<char>, part: Seq<char>) -> Seq<char> {
    if part.len() > 0 && part[0] == '/' {
        part
    } else if base.len() > 0 && base.last() != '/' {
        base + seq!['/'] + part
    } else {
        base + part
    }
}

/// Calls `std::path::Path::parent` on `path`. The contract says only that the
/// result is [`parent_of`] of the argument: the parent of a path given as
/// UTF-8 text is a prefix of it, so converting it back to text loses nothing.
/// What `parent_of` is on given values (how `..`, `.` or trailing separators
/// are treated) is left to the standard library and not stated.
#[verifier::external_body]
pub(crate) fn path_parent(path: &str) -> (parent: Option<String>)
    ensures
        parent.deep_view() == parent_of(path@),
{
    std::path::Path::new(path).parent().map(|p| p.to_string_lossy().into_owned())
}

/// Calls `std::path::Path::file_name` on `path`; the result is [`file_name_of`]
/// of the argument, a piece of the given UTF-8 text.
#[verifier::external_body]
pub(crate) fn path_file_name(path: &str) -> (name: Option<String>)
    ensures
        name.deep_view() == file_name_of(path@),
{
    std::path::Path::new(path).file_name().map(|n| n.to_string_lossy().into_owned())
}

/// Joins `part` onto `base` as `std::path::Path::join` does on a Unix host,
/// where the bridges run: see [`joined`].
pub fn path_join(base: &str, part: &str) -> (path: String)
    ensures
        path@ == joined(base@, part@),
{
    let p = chars_of(part);
    if p.len() > 0 && p[0] == '/' {
        return string_of(&p);
    }
    let b = chars_of(base);
    let mut out: Vec<char> = Vec::new();
    extend_chars(&mut out, &b);
    if b.len() > 0 && b[b.len() - 1] != '/' {
        out.push('/');
    }
    extend_chars(&mut out, &p);
    string_of(&out)
}

} // verus!
