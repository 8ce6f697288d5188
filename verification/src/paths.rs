//! File system paths held as text, with the meaning the standard library
//! gives them on Unix.
use vstd::prelude::*;

verus! {

/// `PathBuf::push` on Unix: an absolute `p` replaces `base`; otherwise `p` is
/// appended, after a `/` when `base` is not empty and does not end in one.
pub open spec fn join_spec(base: Seq<char>, p: Seq<char>) -> Seq<char> {
    if p.len() > 0 && p[0] == '/' {
        p
    } else if base.len() > 0 && base.last() != '/' {
        base + seq!['/'] + p
    } else {
        base + p
    }
}

/// Joins a path onto another, as `Path::join` does on Unix.
pub fn path_join(base: &str, p: &str) -> (r: String)
    ensures
        r@ == join_spec(base@, p@),
{
    let n = base.unicode_len();
    if p.unicode_len() > 0 && p.get_char(0) == '/' {
        return String::from_str(p);
    }
    let mut r = String::from_str(base);
    if n > 0 && base.get_char(n - 1) != '/' {
        let sep = "/";
        proof {
            reveal_strlit("/");
        }
        r.append(sep);
    }
    r.append(p);
    r
}

/// The last component that `Path::file_name` finds in the path `p`.
pub uninterp spec fn path_file_name(p: Seq<char>) -> Option<Seq<char>>;

/// The path that `Path::parent` gives for `p`: `p` without its last
/// component.
pub uninterp spec fn path_parent(p: Seq<char>) -> Option<Seq<char>>;

/// Whether `Path::ends_with` finds `child` to be a suffix of `p`, comparing
/// whole components.
pub uninterp spec fn path_ends_with(p: Seq<char>, child: Seq<char>) -> bool;

/// The path that `Path::strip_prefix` leaves of `p` after `base`, comparing
/// whole components.
pub uninterp spec fn path_strip_prefix(p: Seq<char>, base: Seq<char>) -> Option<Seq<char>>;

/// Calls `Path::file_name` on the path `p`; the component comes back as text
/// unchanged, since it is part of `p`. Claimed: the outcome is
/// `path_file_name(p)`. When it is `None` is left unsaid (the documentation
/// names a path ending in `..`).
#[verifier::external_body]
pub(crate) fn file_name(p: &str) -> (r: Option<String>)
    ensures
        match path_file_name(p@) {
            Some(n) => r matches Some(x) && x@ == n,
            None => r is None,
        },
{
    std::path::Path::new(p).file_name().map(|n| n.to_string_lossy().into_owned())
}

/// Calls `Path::parent` on the path `p`. Claimed: the outcome is
/// `path_parent(p)`.
#[verifier::external_body]
pub(crate) fn parent(p: &str) -> (r: Option<String>)
    ensures
        match path_parent(p@) {
            Some(n) => r matches Some(x) && x@ == n,
            None => r is None,
        },
{
    std::path::Path::new(p).parent().map(|n| n.to_string_lossy().into_owned())
}

/// Calls `Path::ends_with` on the path `p` with `child`. Claimed: the outcome
/// is `path_ends_with(p, child)`.
#[verifier::external_body]
pub(crate) fn ends_with_component(p: &str, child: &str) -> (r: bool)
    ensures
        r == path_ends_with(p@, child@),
{
    std::path::Path::new(p).ends_with(child)
}

/// Calls `Path::strip_prefix` on the path `p` with `base`. Claimed: the
/// outcome is `path_strip_prefix(p, base)`.
#[verifier::external_body]
pub(crate) fn strip_prefix(p: &str, base: &str) -> (r: Option<String>)
    ensures
        match path_strip_prefix(p@, base@) {
            Some(n) => r matches Some(x) && x@ == n,
            None => r is None,
        },
{
    std::path::Path::new(p).strip_prefix(base).ok().map(|n| n.to_string_lossy().into_owned())
}

} // verus!
