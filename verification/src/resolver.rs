//! Resolution of a path to the format in which its file is read.

use crate::error::{outcome, ErrorView, SqlStreamError};
use crate::format::{fold_case, Format};
use crate::path::{extension, extension_of};
use vstd::prelude::*;

verus! {

/// What a path resolves to, given whether it exists: a missing path is
/// `FileNotFound` whatever its extension; an existing one is read in the
/// format that its extension names, and is `UnsupportedFormat` where the
/// extension names none or is absent.
pub open spec fn resolution(path: Seq<char>, found: bool) -> Result<Format, ErrorView> {
    if !found {
        Err(ErrorView::FileNotFound(path))
    } else {
        match extension(path) {
            None => Err(ErrorView::UnsupportedFormat(path)),
            Some(ext) => match Format::named(ext) {
                Some(format) => Ok(format),
                None => Err(ErrorView::UnsupportedFormat(ext)),
            },
        }
    }
}

/// Asks the file system whether `path` exists, through
/// `std::path::Path::exists`. The answer depends on the disk at the moment of
/// the call, so nothing is claimed of it.
#[verifier::external_body]
pub(crate) fn path_exists(path: &str) -> (found: bool) {
    std::path::Path::new(path).exists()
}

/// Resolves `path`, given whether it exists.
pub fn resolve_with(path: &str, found: bool) -> (result: Result<Format, SqlStreamError>)
    ensures
        outcome(result) == resolution(path@, found),
{
    if !found {
        return Err(SqlStreamError::FileNotFound(path.to_owned()));
    }
    match extension_of(path) {
        None => Err(SqlStreamError::UnsupportedFormat(path.to_owned())),
        Some(ext) => match Format::from_extension(ext) {
            Some(format) => Ok(format),
            None => Err(SqlStreamError::UnsupportedFormat(ext.to_owned())),
        },
    }
}

/// Resolves `path`, asking the file system whether it exists. The path is not
/// looked at again when the file is opened later.
pub fn resolve(path: &str) -> (result: Result<Format, SqlStreamError>)
    ensures
        outcome(result) == resolution(path@, true) || outcome(result) == resolution(path@, false),
{
    resolve_with(path, path_exists(path))
}

/// A path that does not exist resolves to `FileNotFound` with that path, and
/// to no other error, whatever its extension.
pub proof fn law_missing_path_is_not_found(path: Seq<char>)
    ensures
        resolution(path, false) == Err::<Format, ErrorView>(ErrorView::FileNotFound(path)),
{
}

/// An existing path whose extension, letters folded to lower case, is neither
/// `csv` nor `json`, or that has no extension, resolves to
/// `UnsupportedFormat`.
pub proof fn law_other_extension_is_unsupported(path: Seq<char>)
    requires
        match extension(path) {
            Some(ext) => fold_case(ext) != Format::Csv.name() && fold_case(ext)
                != Format::Json.name(),
            None => true,
        },
    ensures
        resolution(path, true) matches Err(ErrorView::UnsupportedFormat(_)),
{
}

/// An existing path resolves to a format exactly when its extension names
/// that format.
pub proof fn law_format_follows_extension(path: Seq<char>, format: Format)
    ensures
        resolution(path, true) == Ok::<Format, ErrorView>(format) <==> (extension(path) matches Some(
            ext,
        ) && fold_case(ext) == format.name()),
{
    assert(Format::Csv.name().len() != Format::Json.name().len());
}

} // verus!
