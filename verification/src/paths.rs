// File system paths, held as strings. The path grammar (separators, roots,
// drive prefixes) is that of the platform the launcher is built for, so every
// operation that reads it goes through `std::path`, and its result is named
// here rather than restated: on a given platform it depends on the arguments
// alone.
use vstd::prelude::*;

use std::path::Path;

verus! {

/// What `Path::join` gives for `base` and `tail`.
pub uninterp spec fn spec_path_join(base: Seq<char>, tail: Seq<char>) -> Seq<char>;

/// What `Path::parent` gives for `path`: the path without its final
/// component, or nothing where the path ends in a root or prefix or is empty.
pub uninterp spec fn spec_path_parent(path: Seq<char>) -> Option<Seq<char>>;

/// What `Path::file_name` gives for `path`: its final component, or nothing
/// where the path ends in `..` or has no final component.
pub uninterp spec fn spec_path_file_name(path: Seq<char>) -> Option<Seq<char>>;

/// What `==` on two `Path`s gives: whether they have the same components.
pub uninterp spec fn spec_paths_equal(a: Seq<char>, b: Seq<char>) -> bool;

/// Whether `name` is a single ordinary path component on every platform: not
/// empty, not `.` or `..`, and free of separators (`/`, `\\`) and of the `:`
/// of a drive prefix.
pub open spec fn is_plain_file_name(name: Seq<char>) -> bool {
    &&& name.len() > 0
    &&& name != seq!['.']
    &&& name != seq!['.', '.']
    &&& forall|i: int| 0 <= i < name.len() ==> #[trigger] name[i] != '/' && name[i] != '\\' && name[i] != ':'
}

/// `std::path::Path::join`: `base` with `tail` adjoined. The contract claims
/// that the result is determined by the two paths, and one fact that the
/// documentation gives: a relative `tail` is appended to `base`, so when
/// `tail` is one ordinary component it is the final component, the file
/// name, of the result. The text is read back from the joined path, which is
/// valid UTF-8 because both parts are.
#[verifier::external_body]
pub(crate) fn path_join(base: &str, tail: &str) -> (joined: String)
    ensures
        joined@ == spec_path_join(base@, tail@),
        is_plain_file_name(tail@) ==> spec_path_file_name(joined@) == Some(tail@),
{
    Path::new(base).join(tail).to_string_lossy().into_owned()
}

/// `std::path::Path::parent`. The contract claims only that the result is
/// determined by the path.
#[verifier::external_body]
pub(crate) fn path_parent(path: &str) -> (parent: Option<String>)
    ensures
        match parent {
            Some(p) => spec_path_parent(path@) == Some(p@),
            None => spec_path_parent(path@) is None,
        },
{
    match Path::new(path).parent() {
        Some(p) => Some(p.to_string_lossy().into_owned()),
        None => None,
    }
}

/// `std::path::Path::file_name`. The contract claims only that the result is
/// determined by the path.
#[verifier::external_body]
pub(crate) fn path_file_name(path: &str) -> (name: Option<String>)
    ensures
        match name {
            Some(n) => spec_path_file_name(path@) == Some(n@),
            None => spec_path_file_name(path@) is None,
        },
{
    match Path::new(path).file_name() {
        Some(n) => Some(n.to_string_lossy().into_owned()),
        None => None,
    }
}

/// `==` on `std::path::Path`, which compares the two paths component by
/// component. The contract claims only that the answer is determined by the
/// two paths.
#[verifier::external_body]
pub(crate) fn paths_equal(a: &str, b: &str) -> (eq: bool)
    ensures
        eq == spec_paths_equal(a@, b@),
{
    Path::new(a) == Path::new(b)
}

} // verus!
