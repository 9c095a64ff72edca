//! The ways a tag parse can be refused. A failed decode aborts the walk:
//! once a size field is untrustworthy the next valid offset is unknown.

use vstd::prelude::*;

verus! {

/// Why a decode step failed.
#[derive(Clone, Copy, Debug, PartialEq, Eq, Structural)]
pub enum ParseError {
    /// The tag's first three bytes are not `I`, `D`, `3`.
    InvalidMagic,
    /// Fewer bytes were available than a header or a body requires.
    TruncatedInput,
    /// A frame identifier or a text body is not valid as the format specifies.
    InvalidEncoding,
    /// A frame's declared size would run past the tag's declared total size.
    OversizedFrame,
}

} // verus!
