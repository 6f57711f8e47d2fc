//! The error type of every decoder.

use vstd::prelude::*;

verus! {

/// Why a decode call gave no value. Every kind ends the call; none is retried.
#[derive(Debug, Clone, Copy, PartialEq, Eq, Structural)]
pub enum Error {
    /// The input ended before the tag byte, the length byte or the payload was complete.
    BufferTooShort,
    /// The leading byte is no tag that the requested type accepts.
    UnexpectedFormatTag,
    /// The length byte behind the binary tag is not the 16 that a 128-bit integer is carried with.
    UnexpectedBinLength,
}

} // verus!
