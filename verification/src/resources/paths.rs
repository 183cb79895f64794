//! The few operations on file-system paths that the resources need.

use vstd::prelude::*;

verus! {

/// The path that `std::path::PathBuf::push` makes of a base and a child on
/// this platform.
pub uninterp spec fn joined_path(base: Seq<char>, child: Seq<char>) -> Seq<char>;

/// The last component of a path, as `std::path::Path::file_name` gives it;
/// nothing where the path ends in `..` or has no component.
pub uninterp spec fn path_file_name(path: Seq<char>) -> Option<Seq<char>>;

/// A path without its last component, as `std::path::PathBuf::pop` leaves it.
pub uninterp spec fn path_parent(path: Seq<char>) -> Seq<char>;

/// Whether `a` comes before `b`, or is `b`, in the order of strings: character
/// by character by code point, a proper prefix first.
pub open spec fn text_le(a: Seq<char>, b: Seq<char>) -> bool
    decreases a.len(),
{
    if a.len() == 0 {
        true
    } else if b.len() == 0 {
        false
    } else if a[0] != b[0] {
        (a[0] as u32) < (b[0] as u32)
    } else {
        text_le(a.drop_first(), b.drop_first())
    }
}

/// The characters of each name of a list.
pub open spec fn name_views(names: Seq<String>) -> Seq<Seq<char>> {
    names.map_values(|name: String| name@)
}

/// Whether each name of a list comes before the next, or equals it.
pub open spec fn names_sorted(names: Seq<String>) -> bool {
    forall|i: int, j: int| 0 <= i < j < names.len() ==> text_le(names[i]@, names[j]@)
}

/// Whether anything exists at `path`, by `std::path::Path::exists`. Trusted,
/// and nothing is claimed: the answer is the file system's.
#[verifier::external_body]
pub(crate) fn path_exists(path: &str) -> bool {
    std::path::Path::new(path).exists()
}

/// Appends `child` to `base` with `std::path::PathBuf::push`. Trusted: the
/// result is a function of the two texts alone, named here and not spelled out.
#[verifier::external_body]
pub(crate) fn join_path(base: &str, child: &str) -> (r: String)
    ensures
        r@ == joined_path(base@, child@),
{
    let mut path = std::path::PathBuf::from(base);
    path.push(child);
    path.to_string_lossy().into_owned()
}

/// The last component of a path, by `std::path::Path::file_name`. Trusted: the
/// result is a function of the text alone, named here and not spelled out.
#[verifier::external_body]
pub(crate) fn file_name_of(path: &str) -> (r: Option<String>)
    ensures
        match r {
            Some(name) => path_file_name(path@) == Some(name@),
            None => path_file_name(path@) is None,
        },
{
    match std::path::Path::new(path).file_name() {
        Some(name) => Some(name.to_string_lossy().into_owned()),
        None => None,
    }
}

/// A path without its last component, by `std::path::PathBuf::pop`. Trusted:
/// the result is a function of the text alone, named here and not spelled out.
#[verifier::external_body]
pub(crate) fn parent_of(path: &str) -> (r: String)
    ensures
        r@ == path_parent(path@),
{
    let mut parent = std::path::PathBuf::from(path);
    parent.pop();
    parent.to_string_lossy().into_owned()
}

/// Sorts names with the slice method `sort`. Trusted: std documents that the
/// slice is sorted, which keeps its elements and puts them in the order of
/// `String`, documented as the order of the code points.
#[verifier::external_body]
pub(crate) fn sort_names(names: Vec<String>) -> (r: Vec<String>)
    ensures
        names_sorted(r@),
        name_views(r@).to_multiset() == name_views(names@).to_multiset(),
{
    let mut sorted = names;
    sorted.sort();
    sorted
}

} // verus!
