//! The errors that the library itself decides on.

use vstd::prelude::*;

verus! {

/// Why a pin or a sweep was refused.
#[derive(Debug)]
pub enum GcError {
    /// The reserved name built for a commit is not a valid reference name.
    InvalidRefName { name: String },
    /// The set of visible commits could not be computed, so nothing is swept.
    Visibility { message: String },
}

} // verus!
