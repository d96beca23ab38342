//! What can go wrong while decoding.

use vstd::prelude::*;

verus! {

/// A decoding failure.
#[derive(Clone, Copy, Debug, PartialEq, Eq, Structural)]
pub enum DecodeError {
    /// Fewer bytes remain than a field, a span or a declared body needs.
    Truncated,
    /// The buffer ends inside a record header: the rest of the buffer
    /// cannot be trusted.
    TruncatedHeader,
    /// The status byte of a table dump entry is not 1.
    InvalidStatus,
    /// The declared body length is longer than the fields of the body.
    TrailingBytes,
}

} // verus!
