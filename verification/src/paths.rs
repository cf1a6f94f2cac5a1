//! The operations of `std::path::Path` that the library plans with. A path is
//! held as a string. The results that follow the platform's component rules,
//! which the standard library documents at length, are named, and every name
//! depends on its arguments alone; the extension and the stem are stated
//! over the file name as the documentation gives them, and a plain name is
//! its own file name.
use vstd::prelude::*;

verus! {

/// What `Path::strip_prefix(base)` gives for `path`, or `None` when `base`
/// is not a prefix of `path` component by component.
pub uninterp spec fn path_strip_prefix(path: Seq<char>, base: Seq<char>) -> Option<Seq<char>>;

/// What `Path::join(rel)` gives for `base`.
pub uninterp spec fn path_join(base: Seq<char>, rel: Seq<char>) -> Seq<char>;

/// What `Path::with_extension(ext)` gives for `path`.
pub uninterp spec fn path_with_extension(path: Seq<char>, ext: Seq<char>) -> Seq<char>;

/// What `Path::file_name()` gives for `path` (its final component, when
/// that is a name).
pub uninterp spec fn path_file_name(path: Seq<char>) -> Option<Seq<char>>;

/// What `Path::with_file_name(name)` gives for `path`.
pub uninterp spec fn path_with_file_name(path: Seq<char>, name: Seq<char>) -> Seq<char>;

/// What `Path::parent()` gives for `path`.
pub uninterp spec fn path_parent(path: Seq<char>) -> Option<Seq<char>>;

/// Whether `Path`'s `==` holds of `a` and `b` (it compares components).
pub uninterp spec fn path_eq(a: Seq<char>, b: Seq<char>) -> bool;

/// A character that separates path components on Unix (`/`) or on Windows
/// (`/` and `\`): a superset of what `std::path::is_separator` accepts on
/// either.
pub open spec fn is_separator_char(c: char) -> bool {
    c == '/' || c == '\\'
}

/// `s` holds no path separator.
pub open spec fn free_of_separators(s: Seq<char>) -> bool {
    forall|i: int| 0 <= i < s.len() ==> !is_separator_char(#[trigger] s[i])
}

/// `path` is a single plain name: not empty, neither `.` nor `..`, and
/// without separators or a drive colon. Such a path is one component, and
/// that component is its file name.
pub open spec fn is_plain_name(path: Seq<char>) -> bool {
    &&& path.len() > 0
    &&& free_of_separators(path)
    &&& !path.contains(':')
    &&& path != seq!['.']
    &&& path != seq!['.', '.']
}

/// The file name of `path`: the path itself when it is a plain name.
pub open spec fn file_name_of(path: Seq<char>) -> Option<Seq<char>> {
    if is_plain_name(path) {
        Some(path)
    } else {
        path_file_name(path)
    }
}

/// The index of the last `.` of `name`, or -1 when it has none.
pub open spec fn last_dot(name: Seq<char>) -> int
    decreases name.len(),
{
    if name.len() == 0 {
        -1
    } else if name.last() == '.' {
        name.len() - 1
    } else {
        last_dot(name.drop_last())
    }
}

/// The extension of a file name, as `Path::extension` documents it: none
/// when the name has no `.` or only a leading one; otherwise what follows
/// the final `.`.
pub open spec fn name_extension(name: Seq<char>) -> Option<Seq<char>> {
    if last_dot(name) <= 0 {
        None
    } else {
        Some(name.subrange(last_dot(name) + 1, name.len() as int))
    }
}

/// The stem of a file name, as `Path::file_stem` documents it: the whole
/// name when it has no `.` or only a leading one; otherwise what precedes
/// the final `.`.
pub open spec fn name_stem(name: Seq<char>) -> Seq<char> {
    if last_dot(name) <= 0 {
        name
    } else {
        name.subrange(0, last_dot(name))
    }
}

/// What `Path::extension()` gives for `path`.
pub open spec fn path_extension(path: Seq<char>) -> Option<Seq<char>> {
    match file_name_of(path) {
        Some(name) => name_extension(name),
        None => None,
    }
}

/// What `Path::file_stem()` gives for `path`.
pub open spec fn path_file_stem(path: Seq<char>) -> Option<Seq<char>> {
    match file_name_of(path) {
        Some(name) => Some(name_stem(name)),
        None => None,
    }
}

/// `Path::strip_prefix`: the rest of `path` after the components of `base`,
/// or `None` when `base` is not a leading part of `path`.
#[verifier::external_body]
pub(crate) fn strip_prefix(path: &str, base: &str) -> (res: Option<String>)
    ensures
        res matches Some(r) ==> path_strip_prefix(path@, base@) == Some(r@),
        res is None ==> path_strip_prefix(path@, base@) is None,
{
    std::path::Path::new(path).strip_prefix(base).ok().map(|p| p.to_string_lossy().into_owned())
}

/// `Path::join`: `rel` appended to `base`.
#[verifier::external_body]
pub(crate) fn join(base: &str, rel: &str) -> (res: String)
    ensures
        res@ == path_join(base@, rel@),
{
    std::path::Path::new(base).join(rel).to_string_lossy().into_owned()
}

/// `Path::with_extension`: `path` with its extension replaced by `ext`.
/// It panics when `ext` holds a separator, so such an `ext` is refused.
#[verifier::external_body]
pub(crate) fn with_extension(path: &str, ext: &str) -> (res: String)
    requires
        free_of_separators(ext@),
    ensures
        res@ == path_with_extension(path@, ext@),
{
    std::path::Path::new(path).with_extension(ext).to_string_lossy().into_owned()
}

/// `Path::extension`: the extension of the file name of `path`, if any.
#[verifier::external_body]
pub(crate) fn extension(path: &str) -> (res: Option<String>)
    ensures
        res matches Some(r) ==> path_extension(path@) == Some(r@),
        res is None ==> path_extension(path@) is None,
{
    std::path::Path::new(path).extension().map(|e| e.to_string_lossy().into_owned())
}

/// `Path::file_stem`: the file name of `path` without its extension, if any.
#[verifier::external_body]
pub(crate) fn file_stem(path: &str) -> (res: Option<String>)
    ensures
        res matches Some(r) ==> path_file_stem(path@) == Some(r@),
        res is None ==> path_file_stem(path@) is None,
{
    std::path::Path::new(path).file_stem().map(|e| e.to_string_lossy().into_owned())
}

/// `Path::file_name`: the last component of `path`, if it is a name; a
/// plain name is its own file name.
#[verifier::external_body]
pub(crate) fn file_name(path: &str) -> (res: Option<String>)
    ensures
        res matches Some(r) ==> file_name_of(path@) == Some(r@),
        res is None ==> file_name_of(path@) is None,
        res matches Some(r) ==> (!is_plain_name(path@) ==> path_file_name(path@) == Some(r@)),
{
    std::path::Path::new(path).file_name().map(|e| e.to_string_lossy().into_owned())
}

/// `Path::with_file_name`: `path` with its last component replaced by `name`.
#[verifier::external_body]
pub(crate) fn with_file_name(path: &str, name: &str) -> (res: String)
    ensures
        res@ == path_with_file_name(path@, name@),
{
    std::path::Path::new(path).with_file_name(name).to_string_lossy().into_owned()
}

/// `Path::parent`: `path` without its last component, if it has one.
#[verifier::external_body]
pub(crate) fn parent(path: &str) -> (res: Option<String>)
    ensures
        res matches Some(r) ==> path_parent(path@) == Some(r@),
        res is None ==> path_parent(path@) is None,
{
    std::path::Path::new(path).parent().map(|p| p.to_string_lossy().into_owned())
}

/// `Path`'s `==`: whether `a` and `b` have the same components.
#[verifier::external_body]
pub(crate) fn same_path(a: &str, b: &str) -> (res: bool)
    ensures
        res == path_eq(a@, b@),
{
    std::path::Path::new(a) == std::path::Path::new(b)
}

} // verus!
