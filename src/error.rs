use vstd::prelude::*;

verus! {

/// Why a decode step failed.
#[derive(Debug, Clone, Copy, PartialEq, Eq, Structural)]
pub enum BspError {
    /// A read would go past the end of the buffer, or a directory entry holds a
    /// negative offset or length.
    OutOfRange,
    /// A fixed-length text field is not valid UTF-8.
    InvalidText,
    /// The file does not start with the tag "IBSP".
    BadMagic,
    /// The version field is not 46.
    BadVersion,
    /// A record refers past the end of the sequence it indexes.
    BadIndex,
}

} // verus!
