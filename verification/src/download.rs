//! Where a download is written.

use crate::reddit::urls::{path_of, url_path};
use vstd::prelude::*;

verus! {

/// The last component of a path, as `std::path::Path::file_name` has it:
/// `None` where the path ends in `..` or has no component.
pub uninterp spec fn path_file_name(path: Seq<char>) -> Option<Seq<char>>;

/// `std::path::Path::file_name` on `path`, written out as text. Nothing is
/// proved of the result: it is what std returns, named `path_file_name`.
#[verifier::external_body]
fn file_name_of(path: &str) -> (r: Option<String>)
    ensures
        r is Some == path_file_name(path@) is Some,
        r is Some ==> r->0@ == path_file_name(path@)->0,
{
    std::path::Path::new(path).file_name().map(|name| name.to_string_lossy().into_owned())
}

/// Why no download can be started.
#[derive(Debug, Clone, Copy, PartialEq, Eq, Structural)]
pub enum DownloadError {
    /// The text is no address.
    BadUrl,
    /// The path of the address names no file.
    NoFileName,
}

/// The name of the file in which the download of an address is kept: the last
/// component of the address's path.
pub open spec fn file_name_in(url: Seq<char>) -> Result<Seq<char>, DownloadError> {
    match url_path(url) {
        Some(path) => match path_file_name(path) {
            Some(name) => Ok(name),
            None => Err(DownloadError::NoFileName),
        },
        None => Err(DownloadError::BadUrl),
    }
}

/// The name that the file name of a path gives, or the error of its absence.
pub fn named_or_error(name: Option<String>) -> (r: Result<String, DownloadError>)
    ensures
        name is Some ==> r == Ok::<String, DownloadError>(name->0),
        name is None ==> r == Err::<String, DownloadError>(DownloadError::NoFileName),
{
    match name {
        Some(name) => Ok(name),
        None => Err(DownloadError::NoFileName),
    }
}

/// The name of the file for the download of an address.
pub fn download_file_name(url: &str) -> (r: Result<String, DownloadError>)
    ensures
        r is Ok == file_name_in(url@) is Ok,
        r is Ok ==> r->Ok_0@ == file_name_in(url@)->Ok_0,
        r is Err ==> r->Err_0 == file_name_in(url@)->Err_0,
{
    match path_of(url) {
        Some(path) => named_or_error(file_name_of(path.as_str())),
        None => Err(DownloadError::BadUrl),
    }
}

} // verus!
