//! The one failure this crate reports: a node ID of the wrong length.

use vstd::prelude::*;

verus! {

/// Error returned when the node ID handed to [`crate::Uuid::new_v1`] does not
/// have exactly the required number of bytes.
#[derive(Clone, Copy, Debug, PartialEq, Eq, Structural)]
pub struct Error {
    /// The number of bytes a node ID must have.
    pub expected: usize,
    /// The number of bytes actually supplied.
    pub actual: usize,
}

impl Error {
    /// Build a length-mismatch error from the required and supplied lengths.
    pub fn new(expected: usize, actual: usize) -> (r: Error)
        ensures
            r.expected == expected,
            r.actual == actual,
    {
        Error { expected, actual }
    }
}

} // verus!
