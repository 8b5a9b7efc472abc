//! The library's error type.

use vstd::prelude::*;

verus! {

/// An operation failed; the text says why.
#[derive(Debug)]
pub enum AmpError {
    Other(String),
}

impl AmpError {
    /// The reason as text.
    pub fn message(&self) -> (r: &String)
        ensures
            (self matches AmpError::Other(m) && r == m),
    {
        match self {
            AmpError::Other(m) => m,
        }
    }
}

} // verus!
