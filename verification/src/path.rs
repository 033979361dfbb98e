//! Paths of local files.
//!
//! A path is carried as it is, whether or not it is valid Unicode. What of it can be shown is
//! asked of the standard library.
use std::path::PathBuf;
use vstd::prelude::*;

verus! {

/// The standard library's path.
#[verifier::external_type_specification]
#[verifier::external_body]
pub struct ExPathBuf(PathBuf);

/// A copy of a path, with the `Clone` of `std::path::PathBuf`: it is the same path.
#[verifier::external_body]
pub(crate) fn clone_path(path: &PathBuf) -> (r: PathBuf)
    ensures
        r == *path,
{
    path.clone()
}

/// The characters of a path, as far as it is valid Unicode, with what stands for the rest.
pub uninterp spec fn characters(path: PathBuf) -> Seq<char>;

/// The text by which a path is shown, from `std::path::Path::display`: its characters. The same
/// path is always shown by the same text. By what parts that are not valid Unicode are replaced is
/// not said.
#[verifier::external_body]
pub(crate) fn display(path: &PathBuf) -> (r: String)
    ensures
        r@ == characters(*path),
{
    path.display().to_string()
}

/// The last part of a path without its extension, from `std::path::Path::file_stem`. Which paths
/// have one is not said.
#[verifier::external_body]
fn path_file_stem(path: &PathBuf) -> (r: Option<PathBuf>) {
    path.file_stem().map(PathBuf::from)
}

/// A path as text, from `std::path::Path::to_str`: a path that is not valid Unicode has none.
/// Which paths those are is not said.
#[verifier::external_body]
fn path_to_str(path: &PathBuf) -> (r: Option<String>) {
    path.to_str().map(ToOwned::to_owned)
}

/// Whether a text is the name of the file at a path, without its extension; there is none where
/// the path names no file or the name is not valid Unicode.
pub closed spec fn is_file_title(path: PathBuf, title: Option<String>) -> bool {
    exists|stem: Option<PathBuf>| #[trigger]
        call_ensures(path_file_stem, (&path,), stem) && match stem {
            Some(name) => call_ensures(path_to_str, (&name,), title),
            None => title is None,
        }
}

/// The name of the file at a path, without its extension.
pub(crate) fn file_title(path: &PathBuf) -> (r: Option<String>)
    ensures
        is_file_title(*path, r),
{
    match path_file_stem(path) {
        Some(name) => path_to_str(&name),
        None => None,
    }
}

} // verus!
