//! Paths, held as text. Joining two paths and taking the last component are
//! the standard library's; everything the library decides about a path is
//! decided on what these two hand back.

use vstd::prelude::*;

verus! {

/// The path that `std::path::Path::join` makes of `base` followed by `part`.
pub uninterp spec fn joined(base: Seq<char>, part: Seq<char>) -> Seq<char>;

/// The last component of `path` as `std::path::Path::file_name` finds it:
/// `None` for a path that ends in `..` or has no component at all.
pub uninterp spec fn file_name_of(path: Seq<char>) -> Option<Seq<char>>;

/// A single plain file name: not empty, not `.` or `..`, and free of the
/// characters any platform reads as a separator or a drive (`/`, `\`, `:`).
pub open spec fn is_plain_name(s: Seq<char>) -> bool {
    &&& s.len() > 0
    &&& s != seq!['.']
    &&& s != seq!['.', '.']
    &&& forall|i: int| 0 <= i < s.len() ==> s[i] != '/' && s[i] != '\\' && s[i] != ':'
}

/// Calls `std::path::Path::join`. Trusted to hand back the joined path, named
/// by `joined`, and — as the documentation of `join` (a relative part is
/// adjoined as the last component) and of `file_name` (the final component)
/// give — one whose file name is `part` when `part` is a plain file name. The
/// platform's other rules for separators and absolute parts are not restated.
#[verifier::external_body]
pub(crate) fn join(base: &str, part: &str) -> (r: String)
    ensures
        r@ == joined(base@, part@),
        is_plain_name(part@) ==> file_name_of(r@) == Some(part@),
{
    std::path::Path::new(base).join(part).to_string_lossy().into_owned()
}

/// Calls `std::path::Path::file_name`. Trusted to hand back the last
/// component, named by `file_name_of`; how the platform splits a path into
/// components is not restated.
#[verifier::external_body]
pub(crate) fn file_name(path: &str) -> (r: Option<String>)
    ensures
        r matches Some(n) ==> file_name_of(path@) == Some(n@),
        r is None ==> file_name_of(path@) is None,
{
    std::path::Path::new(path).file_name().map(|n| n.to_string_lossy().into_owned())
}

} // verus!
