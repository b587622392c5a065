use vstd::prelude::*;

verus! {

/// Why a header could not be decoded.
#[derive(Debug, Clone, Copy, PartialEq, Eq, Structural)]
pub enum DecodeError {
    /// Fewer bytes remain than the header takes.
    TruncatedInput,
    /// A protocol number outside the recognized set.
    UnknownProtocolTag,
}

} // verus!
