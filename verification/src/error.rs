//! The ways a conversion can fail.

use vstd::prelude::*;

verus! {

/// Why a conversion was refused. A conversion either yields every line or
/// fails with one of these before producing anything.
#[derive(Clone, Copy, Debug, PartialEq, Eq, Structural)]
pub enum AsciifyError {
    /// The pixel data does not describe an image of the stated size.
    DecodeError,
    /// A requested or source dimension is zero or too large to work with.
    InvalidDimension,
}

impl AsciifyError {
    /// A short description for messages.
    pub fn message(&self) -> (text: &'static str)
        ensures
            text@ == match *self {
                AsciifyError::DecodeError => "image data could not be decoded"@,
                AsciifyError::InvalidDimension => "image dimension is zero or too large"@,
            },
    {
        match self {
            AsciifyError::DecodeError => "image data could not be decoded",
            AsciifyError::InvalidDimension => "image dimension is zero or too large",
        }
    }
}

} // verus!
