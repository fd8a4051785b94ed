//! Standard-library types that the library's error values carry opaquely,
//! and the one call made on them.
use vstd::prelude::*;

verus! {

/// An I/O failure, carried through unchanged.
#[verifier::external_type_specification]
#[verifier::external_body]
pub struct ExIoError(std::io::Error);

/// A filesystem path, carried through unchanged.
#[verifier::external_type_specification]
#[verifier::external_body]
pub struct ExPathBuf(std::path::PathBuf);

/// The text of an I/O error as the standard library renders it.
///
/// Calls `std::io::Error`'s `Display` through `to_string`. What that text is
/// depends on the operating system's error messages, so nothing is promised
/// of it.
#[verifier::external_body]
pub(crate) fn io_error_text(error: &std::io::Error) -> String {
    error.to_string()
}

/// The text of a path as the standard library displays it.
///
/// Calls `std::path::Path::display` and renders it with `to_string`. How
/// a path that is not valid Unicode is shown depends on the platform, so
/// nothing is promised of the text.
#[verifier::external_body]
pub(crate) fn path_text(path: &std::path::PathBuf) -> String {
    path.display().to_string()
}

} // verus!
