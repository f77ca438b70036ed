//! Failures that end a comparison.
use vstd::prelude::*;

verus! {

/// Why a comparison could not be completed.
#[derive(Clone, Debug, PartialEq, Eq)]
pub enum CompareError {
    /// A file was missing and the policy says that is an error.
    NotFound { path: String },
    /// The comparator process exited with a code other than 0 or 1.
    ComparatorExit { code: i32 },
    /// The comparator process was ended by a signal.
    ComparatorKilled,
}

} // verus!
