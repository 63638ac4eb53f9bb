//! The error shape the surrounding service reports: a status code with a
//! human-readable description.

use vstd::prelude::*;

verus! {

/// A user-visible failure: an HTTP-style status code and a description.
#[derive(Clone, Debug, PartialEq, Eq)]
pub struct Error {
    pub code: u16,
    pub description: String,
}

impl Error {
    /// Pairs a status code with its description.
    pub fn new(code: u16, description: String) -> (r: Self)
        ensures
            r.code == code,
            r.description == description,
    {
        Self { code, description }
    }
}

} // verus!
