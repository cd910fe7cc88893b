//! The errors that a settings write reports.

use vstd::prelude::*;

verus! {

#[verifier::external_type_specification]
#[verifier::external_body]
pub struct ExIoError(std::io::Error);

/// Why a settings write failed.
pub enum KettleError {
    /// The backing file could not be read, created or written.
    IoError(std::io::Error),
    /// The backing file holds text that is not a valid INI document.
    IniParseError(ini::ParseError),
}

} // verus!
