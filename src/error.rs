//! The ways in which a registry operation can fail.
use vstd::prelude::*;

verus! {

/// Why an operation on the registry did not succeed.
#[derive(Debug, PartialEq, Eq)]
pub enum AccessError {
    /// The handle is not open: never issued, or already closed.
    InvalidId,
    /// The width selector is none of 0, 1, 2, 4 and 8.
    InvalidSize,
    /// The backend could not be opened; the text is its reason.
    OpenFailed(String),
    /// Every handle the counter can issue has been issued.
    HandlesExhausted,
    /// The backend refused an access that lies outside its extent.
    OutOfRange,
    /// The backend has no such property (a physical address, for instance).
    Unsupported,
}

} // verus!
