//! The error taxonomy of the core: a single invalid-input kind, returned as a
//! normal value and never raised. The boundary layer turns it into a fallback
//! card instead of a failure status.

use vstd::prelude::*;

verus! {

/// The one error the transition resolver can report: the caller pressed a
/// button index with no table entry, named in the reason string.
#[derive(Debug)]
pub enum AppError {
    BadRequest(String),
}

impl AppError {
    /// The human-readable reason carried by the error.
    pub fn reason(&self) -> (r: &String)
        ensures
            self matches AppError::BadRequest(s) && r@ == s@,
    {
        match self {
            AppError::BadRequest(s) => s,
        }
    }
}

} // verus!
