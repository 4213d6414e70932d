//! The error that the setters report.

use vstd::prelude::*;

verus! {

/// Why a value was not stored.
#[derive(Clone, Copy, Debug, PartialEq, Eq, Structural)]
pub enum MetadataError {
    /// A string holds a zero byte, so it cannot be handed over as a string
    /// that a zero byte ends. The caller may try again with another value.
    InvalidArgument,
}

impl MetadataError {
    /// A short description of the error.
    pub fn message(&self) -> (text: &'static str)
        ensures
            text@ == "invalid argument: a string holds a zero byte"@,
    {
        match self {
            MetadataError::InvalidArgument => "invalid argument: a string holds a zero byte",
        }
    }
}

} // verus!
