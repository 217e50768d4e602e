use vstd::prelude::*;

verus! {

/// Error type returned by every fallible operation of this crate.
#[derive(Debug)]
pub enum UdsError {
    /// Catch-all validation failure (malformed subfunction bytes, a path that
    /// is not valid UTF-8, a reserved mode of operation, ...).
    EncodingError {
        /// Reason of the encoding error
        msg: String,
    },
    /// The declared payload length violates a fixed or minimum requirement.
    PayloadLengthTooShort {
        /// The declared payload length
        value: u32,
        /// The minimal or exact payload length expected
        expected: u32,
    },
    /// An internal width selector falls outside {1, 2, 4}.
    UnexpectedPayloadType {
        /// The offending selector
        value: u16,
    },
    /// The input ended before the message did.
    Io,
}

/// The kind of a decode failure, with the human-readable message stripped.
/// Contracts speak of this type so that they pin every numeric detail of an
/// error while leaving the wording of messages free.
#[derive(Debug, PartialEq, Eq, Structural, Clone, Copy)]
pub enum DecErr {
    /// Input exhausted
    Io,
    /// Declared length violates a fixed or minimum requirement
    TooShort {
        /// The declared payload length (truncated to 32 bits)
        value: u32,
        /// The minimal or exact payload length expected
        expected: u32,
    },
    /// Width selector outside {1, 2, 4}
    Unexpected {
        /// The offending selector
        value: u16,
    },
    /// Any other validation failure
    Encoding,
}

/// The kind of an [`UdsError`], as contracts state it.
pub open spec fn err_kind(e: UdsError) -> DecErr {
    match e {
        UdsError::EncodingError { .. } => DecErr::Encoding,
        UdsError::PayloadLengthTooShort { value, expected } => DecErr::TooShort { value, expected },
        UdsError::UnexpectedPayloadType { value } => DecErr::Unexpected { value },
        UdsError::Io => DecErr::Io,
    }
}

/// A length, truncated to 32 bits the way `as u32` truncates it.
pub open spec fn clip32(n: nat) -> u32 {
    (n % 0x1_0000_0000) as u32
}

/// Builds the error for a payload length that violates a minimum.
pub fn too_short(value: usize, expected: u32) -> (e: UdsError)
    ensures
        err_kind(e) == (DecErr::TooShort { value: clip32(value as nat), expected }),
{
    let clipped: u64 = (value as u64) % 0x1_0000_0000;
    UdsError::PayloadLengthTooShort { value: clipped as u32, expected }
}

} // verus!
