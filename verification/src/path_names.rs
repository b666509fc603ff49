use vstd::prelude::*;

verus! {

/// What `std::path::Path::file_name` gives for a path written as `path`,
/// read as UTF-8 text: the final component, or `None` when there is none
/// (an empty path, a root, or a path ending in `..`). The component rules
/// depend on the platform's separators and prefixes, so they are not written out.
pub uninterp spec fn path_file_name(path: Seq<char>) -> Option<Seq<char>>;

/// Index of the last `.` in `name`, or -1 when there is none.
pub open spec fn last_dot_index(name: Seq<char>) -> int
    decreases name.len(),
{
    if name.len() == 0 {
        -1
    } else if name.last() == '.' {
        name.len() - 1
    } else {
        last_dot_index(name.drop_last())
    }
}

/// The extension of a file name, as `std::path::Path::extension` documents it:
/// none without a `.`, none when the only `.` leads the name, otherwise the text
/// after the final `.`.
pub open spec fn name_extension(name: Seq<char>) -> Option<Seq<char>> {
    let dot = last_dot_index(name);
    if dot > 0 {
        Some(name.subrange(dot + 1, name.len() as int))
    } else {
        None
    }
}

/// The extension of the path's final component.
pub open spec fn path_extension(path: Seq<char>) -> Option<Seq<char>> {
    match path_file_name(path) {
        Some(name) => name_extension(name),
        None => None,
    }
}

/// The text of an optional string, or the empty text (`unwrap_or_default`).
pub open spec fn text_or_empty(s: Option<Seq<char>>) -> Seq<char> {
    match s {
        Some(t) => t,
        None => Seq::empty(),
    }
}

/// Calls `std::path::Path::file_name` and `OsStr::to_str` on `path`; the
/// result is the name `path_file_name` of the path.
#[verifier::external_body]
fn file_name_of(path: &str) -> (r: Option<String>)
    ensures
        r is Some <==> path_file_name(path@) is Some,
        r matches Some(n) ==> path_file_name(path@) == Some(n@),
{
    Some(std::path::Path::new(path).file_name()?.to_str()?.to_owned())
}

/// Calls `std::path::Path::extension` and `OsStr::to_str` on `path`: the text
/// after the final `.` of the file name, when that `.` does not lead the name.
#[verifier::external_body]
fn extension_of(path: &str) -> (r: Option<String>)
    ensures
        r is Some <==> path_extension(path@) is Some,
        r matches Some(e) ==> path_extension(path@) == Some(e@),
{
    Some(std::path::Path::new(path).extension()?.to_str()?.to_owned())
}

/// The file name of `path`, or the empty string when it has none.
pub fn file_name_or_empty(path: &str) -> (r: String)
    ensures
        r@ == text_or_empty(path_file_name(path@)),
{
    match file_name_of(path) {
        Some(n) => n,
        None => String::new(),
    }
}

/// The extension of `path`, or the empty string when it has none.
pub fn extension_or_empty(path: &str) -> (r: String)
    ensures
        r@ == text_or_empty(path_extension(path@)),
{
    match extension_of(path) {
        Some(e) => e,
        None => String::new(),
    }
}

} // verus!
