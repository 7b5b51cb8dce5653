//! What `std::path::Path` makes of a path given as text: its file name's
//! extension and stem, and whether it is the path `-`.
use crate::text::after_last_pos;
use vstd::prelude::*;

verus! {

/// A file name on its own: no `/`, and not empty, `.` or `..`; on Unix,
/// where `/` is the only separator, `Path` takes
/// such a text as one normal component, its file name.
pub open spec fn plain_file_name(name: Seq<char>) -> bool {
    &&& !name.contains('/')
    &&& name != ""@
    &&& name != "."@
    &&& name != ".."@
}

/// The stem of a file name, as `Path::file_stem` documents it: the whole
/// name when it holds no `.` or only a leading one, else the part before
/// the final `.`.
pub open spec fn name_stem(name: Seq<char>) -> Seq<char> {
    let k = after_last_pos(name, '.');
    if k <= 1 {
        name
    } else {
        name.subrange(0, k - 1)
    }
}

/// The extension of a file name, as `Path::extension` documents it: none
/// when the name holds no `.` or only a leading one, else the part after the
/// final `.`.
pub open spec fn name_extension(name: Seq<char>) -> Option<Seq<char>> {
    let k = after_last_pos(name, '.');
    if k <= 1 {
        None
    } else {
        Some(name.subrange(k as int, name.len() as int))
    }
}

/// The extension of a path's file name, as `Path::extension` gives it.
pub uninterp spec fn path_extension(path: Seq<char>) -> Option<Seq<char>>;

/// The stem of a path's file name, as `Path::file_stem` gives it.
pub uninterp spec fn path_file_stem(path: Seq<char>) -> Option<Seq<char>>;

/// Whether a path is the path `-`, as `Path`'s equality compares them.
pub uninterp spec fn is_dash_path(path: Seq<char>) -> bool;

/// Calls `Path::extension` (the extension of the file name, if any); for a
/// plain file name it is what the documentation describes.
#[verifier::external_body]
pub(crate) fn file_extension_of(path: &str) -> (r: Option<String>)
    ensures
        r matches Some(e) ==> path_extension(path@) == Some(e@),
        r is None ==> path_extension(path@) is None,
        plain_file_name(path@) ==> (r is None <==> name_extension(path@) is None),
        plain_file_name(path@) ==> (r matches Some(e) ==> name_extension(path@) == Some(e@)),
        (path@ == ""@ || path@ == ".."@) ==> r is None,
{
    std::path::Path::new(path).extension().and_then(|e| e.to_str()).map(|e| e.to_string())
}

/// Calls `Path::file_stem` (the stem of the file name, if any); for a plain
/// file name it is what the documentation describes.
#[verifier::external_body]
pub(crate) fn file_stem_of(path: &str) -> (r: Option<String>)
    ensures
        r matches Some(s) ==> path_file_stem(path@) == Some(s@),
        r is None ==> path_file_stem(path@) is None,
        plain_file_name(path@) ==> r is Some,
        plain_file_name(path@) ==> (r matches Some(s) ==> s@ == name_stem(path@)),
        (path@ == ""@ || path@ == ".."@) ==> r is None,
{
    std::path::Path::new(path).file_stem().and_then(|s| s.to_str()).map(|s| s.to_string())
}

/// Calls `<Path as PartialEq>::eq` against the path `-`.
#[verifier::external_body]
pub(crate) fn path_is_dash(path: &str) -> (r: bool)
    ensures
        r == is_dash_path(path@),
        path@ == "-"@ ==> r,
{
    std::path::Path::new(path) == std::path::Path::new("-")
}

} // verus!
