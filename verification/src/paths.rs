//! File paths: the parts of a path that the commands look at.

use vstd::prelude::*;

verus! {

/// What `Path::extension` gives for the path with these characters: the
/// text after the final `.` of the last component, if that component has
/// one not at its start.
pub uninterp spec fn extension_of(path: Seq<char>) -> Option<Seq<char>>;

/// What `Path::file_name` gives for the path with these characters: its
/// final component, unless that is `..` or there is none.
pub uninterp spec fn file_name_of(path: Seq<char>) -> Option<Seq<char>>;

/// `Path::new(path).extension()` as text. Trusted: the result is named
/// `extension_of` of the argument.
#[verifier::external_body]
pub(crate) fn path_extension(path: &str) -> (r: Option<String>)
    ensures
        match r {
            Some(e) => extension_of(path@) == Some(e@),
            None => extension_of(path@) is None,
        },
{
    std::path::Path::new(path).extension().and_then(|e| e.to_str()).map(|e| e.to_string())
}

/// `Path::new(path).file_name()` as text. Trusted: the result is named
/// `file_name_of` of the argument.
#[verifier::external_body]
pub(crate) fn path_file_name(path: &str) -> (r: Option<String>)
    ensures
        match r {
            Some(n) => file_name_of(path@) == Some(n@),
            None => file_name_of(path@) is None,
        },
{
    std::path::Path::new(path).file_name().and_then(|n| n.to_str()).map(|n| n.to_string())
}

/// The name an uploaded file is sent under: the final component of its
/// path, or an error where the path has none.
pub fn upload_file_name(path: &str) -> (r: Result<String, String>)
    ensures
        match file_name_of(path@) {
            Some(n) => r matches Ok(x) && x@ == n,
            None => r matches Err(e) && e@ == "Cannot derive file name from "@ + path@,
        },
{
    match path_file_name(path) {
        Some(n) => Ok(n),
        None => {
            let mut e = String::from_str("Cannot derive file name from ");
            e.append(path);
            Err(e)
        },
    }
}

} // verus!
