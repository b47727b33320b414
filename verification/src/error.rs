use vstd::prelude::*;

verus! {

/// Why a buffer could not be decoded.
#[derive(Clone, Copy, Debug, PartialEq, Eq, Structural)]
pub enum ParseError {
    /// Fewer bytes remain than a field requires.
    Truncated,
    /// A known option declares a length that its tag does not allow. `expected`
    /// is the required length, or the least allowed one where the tag only
    /// sets a minimum.
    InvalidOptionLength { tag: u8, expected: u8, actual: u8 },
    /// The option stream ran out of bytes before an End option.
    MissingEndOption,
    /// A message-type option carries no byte to decode.
    InvalidMessageType,
}

} // verus!
