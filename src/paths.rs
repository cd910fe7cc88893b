//! File system paths, carried through as `std::path::PathBuf`.

use vstd::prelude::*;

verus! {

#[verifier::external_type_specification]
#[verifier::external_body]
pub struct ExPathBuf(std::path::PathBuf);

/// Relies on `Path::join`: `part` appended to `base` as the platform joins
/// paths. Nothing is stated of the result, which differs between platforms.
#[verifier::external_body]
pub(crate) fn join_path(base: &std::path::PathBuf, part: &str) -> (r: std::path::PathBuf) {
    base.join(part)
}

} // verus!
