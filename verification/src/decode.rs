//! What comes back when bits are not the code of anything.

use vstd::prelude::*;

verus! {

/// Why some bits could not be decoded. Each variant holds the offending
/// value.
#[derive(Debug, Clone, Copy, PartialEq, Eq, Structural)]
pub enum DecodeError {
    /// The value is the code of no suit: it is above 3.
    InvalidSuit(u8),
    /// The value is the code of no rank: it is 0, 1 or above 14.
    InvalidRank(u8),
}

} // verus!
