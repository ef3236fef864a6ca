//! File paths, held as text. What a path's parts are is std's to say, and
//! std reads a path by the separators of the platform the program runs on
//! (`/` everywhere, `\` and drive prefixes on Windows). These wrappers state
//! of their results only what holds on every platform.
use vstd::prelude::*;

use crate::text::{has_prefix, occurs_at};

verus! {

/// `s` ends with `t`.
pub open spec fn has_suffix(s: Seq<char>, t: Seq<char>) -> bool {
    t.len() <= s.len() && s.subrange(s.len() - t.len(), s.len() as int) == t
}

/// `t` is a single plain file name on every platform: not empty, no
/// separator and no drive colon, and neither `.` nor `..`.
pub open spec fn is_plain_name(t: Seq<char>) -> bool {
    &&& t.len() > 0
    &&& forall|i: int| 0 <= i < t.len() ==> t[i] != '/' && t[i] != '\\' && t[i] != ':'
    &&& t != seq!['.']
    &&& t != seq!['.', '.']
}

/// `b` begins like a Windows verbatim path (`\\?\...`), onto which `join`
/// rebuilds the whole path rather than appending.
pub open spec fn verbatim_like(b: Seq<char>) -> bool {
    has_prefix(b, seq!['\\', '\\', '?'])
}

/// `base` needs no separator before a name is added: it is empty, already
/// ends in a separator, or is a bare drive such as `C:`.
pub open spec fn ends_open(base: Seq<char>) -> bool {
    base.len() == 0 || base.last() == '/' || base.last() == '\\' || base.last() == ':'
}

/// `r` is `base` and `tail` with one separator between them, or with none
/// where `base` needs none.
pub open spec fn joined(base: Seq<char>, tail: Seq<char>, r: Seq<char>) -> bool {
    ||| r == base + tail && ends_open(base)
    ||| r == base + seq!['/'] + tail
    ||| r == base + seq!['\\'] + tail
}

/// `path` is `name` inside some directory `dir`: it ends with `name`, and
/// unless `dir` is a verbatim path, it is `dir`, a separator or none, and
/// `name`.
pub open spec fn is_child_named(path: Seq<char>, dir: Seq<char>, name: Seq<char>) -> bool {
    has_suffix(path, name) && (!verbatim_like(dir) ==> joined(dir, name, path))
}

/// Joining a name that holds no `?` onto a path that does not begin like a
/// verbatim path gives a path that does not either.
pub proof fn joined_keeps_non_verbatim(base: Seq<char>, tail: Seq<char>, r: Seq<char>)
    requires
        !verbatim_like(base),
        joined(base, tail, r),
        forall|i: int| 0 <= i < tail.len() ==> tail[i] != '?',
    ensures
        !verbatim_like(r),
{
    let p = seq!['\\', '\\', '?'];
    if has_prefix(r, p) {
        if base.len() >= 3 {
            assert(r.take(3) =~= base.take(3));
        } else {
            assert(r[2] == '?');
        }
    }
}

/// `p` is a leading part of `path`, strictly shorter than it.
pub open spec fn is_parent_text(p: Seq<char>, path: Seq<char>) -> bool {
    has_prefix(path, p) && p.len() < path.len()
}

/// `s` holds no `/`.
pub open spec fn has_no_slash(s: Seq<char>) -> bool {
    forall|i: int| 0 <= i < s.len() ==> s[i] != '/'
}

/// Relies on `Path::file_name`: the last component of `path`, if any. A
/// component is never empty and never holds a `/`.
#[verifier::external_body]
pub(crate) fn file_name_of(path: &str) -> (r: Option<String>)
    ensures
        r matches Some(n) ==> n@.len() > 0 && has_no_slash(n@),
{
    match std::path::Path::new(path).file_name() {
        Some(name) => Some(name.to_string_lossy().into_owned()),
        None => None,
    }
}

/// Relies on `Path::file_stem`: the file name of `path` without its
/// extension, if `path` has a file name. The stem is never empty (a name
/// with its only dot in front is its own stem) and, as part of a file name,
/// holds no `/`.
#[verifier::external_body]
pub(crate) fn file_stem_of(path: &str) -> (r: Option<String>)
    ensures
        r matches Some(s) ==> s@.len() > 0 && has_no_slash(s@),
{
    match std::path::Path::new(path).file_stem() {
        Some(stem) => Some(stem.to_string_lossy().into_owned()),
        None => None,
    }
}

/// Relies on `Path::extension`: the extension of the file name of `path`,
/// without its dot, if it has one. It is the part of the file name, itself
/// a part of `path`, after its last dot: so a dot and the extension stand
/// together in `path`, and the extension holds no dot.
#[verifier::external_body]
pub(crate) fn extension_of(path: &str) -> (r: Option<String>)
    ensures
        r matches Some(e) ==> (forall|i: int| 0 <= i < e@.len() ==> e@[i] != '.') && exists|i: int|
            occurs_at(path@, seq!['.'] + e@, i),
{
    match std::path::Path::new(path).extension() {
        Some(ext) => Some(ext.to_string_lossy().into_owned()),
        None => None,
    }
}

/// Relies on `Path::parent`: `path` without its last component, if it has
/// one; that is a leading part of `path`, shorter than `path` by at least
/// that (never empty) component.
#[verifier::external_body]
pub(crate) fn parent_of(path: &str) -> (r: Option<String>)
    ensures
        r matches Some(p) ==> is_parent_text(p@, path@),
{
    match std::path::Path::new(path).parent() {
        Some(parent) => Some(parent.to_string_lossy().into_owned()),
        None => None,
    }
}

/// Relies on `Path::join` (`PathBuf::push`): `tail` adjoined to `base`. For
/// a plain relative name, the result ends with it and, unless `base` is a
/// verbatim path, is `base`, then the platform's separator where `base`
/// needs one, then `tail`.
#[verifier::external_body]
pub(crate) fn join(base: &str, tail: &str) -> (r: String)
    ensures
        is_plain_name(tail@) ==> has_suffix(r@, tail@),
        is_plain_name(tail@) && !verbatim_like(base@) ==> joined(base@, tail@, r@),
{
    std::path::Path::new(base).join(tail).to_string_lossy().into_owned()
}

} // verus!
