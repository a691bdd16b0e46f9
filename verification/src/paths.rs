//! Paths, held as their text, and the `std::path` operations the tool applies to them.
//!
//! The names below stand for what `std::path` computes under the path rules of the
//! platform the program is built for; on that platform each is a function of its arguments.

use vstd::prelude::*;

verus! {

/// `Path::new(base).join(tail)`.
pub uninterp spec fn path_join(base: Seq<char>, tail: Seq<char>) -> Seq<char>;

/// `Path::new(path).parent()`.
pub uninterp spec fn path_parent(path: Seq<char>) -> Option<Seq<char>>;

/// `Path::new(path).strip_prefix(base)`.
pub uninterp spec fn path_strip_prefix(path: Seq<char>, base: Seq<char>) -> Option<Seq<char>>;

/// `Path::new(path).is_absolute()`.
pub uninterp spec fn path_is_absolute(path: Seq<char>) -> bool;

/// `Path::new(path).extension()`.
pub uninterp spec fn path_extension(path: Seq<char>) -> Option<Seq<char>>;

/// `Path::new(a) == Path::new(b)`, which compares components.
pub uninterp spec fn path_eq(a: Seq<char>, b: Seq<char>) -> bool;

/// `Path::new(a) <= Path::new(b)`, which compares components.
pub uninterp spec fn path_le(a: Seq<char>, b: Seq<char>) -> bool;

/// The order that `<[PathBuf]>::sort` gives to the paths `paths`.
pub uninterp spec fn path_sorted(paths: Seq<Seq<char>>) -> Seq<Seq<char>>;

/// `Path::join`: the path `tail` adjoined to `base`. As `PathBuf::push` documents, an
/// absolute `tail` replaces `base`. Both inputs are valid text, so the text of the
/// result is exact. What else the platform's rules make of the two is left to the name.
#[verifier::external_body]
pub fn join(base: &String, tail: &str) -> (r: String)
    ensures
        r@ == path_join(base@, tail@),
        path_is_absolute(tail@) ==> r@ == tail@,
{
    std::path::Path::new(base).join(tail).to_string_lossy().into_owned()
}

/// `Path::parent`: the path without its final component, or nothing when the path ends
/// in a root or prefix or is empty (then `None`, as documented).
#[verifier::external_body]
pub fn parent(path: &String) -> (r: Option<String>)
    ensures
        r.deep_view() == path_parent(path@),
        path@.len() == 0 ==> r is None,
{
    std::path::Path::new(path).parent().map(|p| p.to_string_lossy().into_owned())
}

/// `Path::strip_prefix`: the rest of `path` after the components of `base`, or nothing
/// when `base` is not a prefix of it. As documented, the rest joined onto `base` yields
/// `path` (equal as paths, which may differ in text, as `a//b` and `a/b` do).
#[verifier::external_body]
pub fn strip_prefix(path: &String, base: &String) -> (r: Option<String>)
    ensures
        r.deep_view() == path_strip_prefix(path@, base@),
        r matches Some(rest) ==> path_eq(path_join(base@, rest@), path@),
{
    match std::path::Path::new(path).strip_prefix(base) {
        Ok(rest) => Some(rest.to_string_lossy().into_owned()),
        Err(_) => None,
    }
}

/// `Path::is_absolute`: whether the path is independent of the current directory.
#[verifier::external_body]
pub fn is_absolute(path: &String) -> (r: bool)
    ensures
        r == path_is_absolute(path@),
{
    std::path::Path::new(path).is_absolute()
}

/// `Path::extension`: the text after the last `.` of the final component, if any.
#[verifier::external_body]
pub fn extension(path: &String) -> (r: Option<String>)
    ensures
        r.deep_view() == path_extension(path@),
{
    std::path::Path::new(path).extension().map(|e| e.to_string_lossy().into_owned())
}


/// `<[PathBuf]>::sort`: the same paths in ascending order of paths, equal ones in the order
/// they came (the sort is stable). Each text goes in and comes out exactly, as every
/// `String` is valid text.
#[verifier::external_body]
pub(crate) fn sort_paths(paths: Vec<String>) -> (r: Vec<String>)
    ensures
        r.deep_view() == path_sorted(paths.deep_view()),
        r.deep_view().to_multiset() == paths.deep_view().to_multiset(),
        forall|i: int, j: int| 0 <= i < j < r.len() ==> path_le(#[trigger] r.deep_view()[i], #[trigger] r.deep_view()[j]),
{
    let mut v: Vec<std::path::PathBuf> = paths.into_iter().map(std::path::PathBuf::from).collect();
    v.sort();
    v.into_iter().map(|p| p.to_string_lossy().into_owned()).collect()
}

/// `Path::eq`: whether two paths have the same components. Equal texts are equal paths,
/// as equality of components is reflexive.
#[verifier::external_body]
pub fn same_path(a: &String, b: &String) -> (r: bool)
    ensures
        r == path_eq(a@, b@),
        a@ == b@ ==> r,
{
    std::path::Path::new(a) == std::path::Path::new(b)
}

} // verus!
