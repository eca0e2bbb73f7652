//! A fixed number of packed cards that share one trump suit.

use vstd::prelude::*;

verus! {

/// `SIZE` packed cards under the trump suit whose code is `TRUMP`.
///
/// This is the container only. Filling, shuffling and dealing belong to
/// whoever sets up a game.
#[derive(Clone, Copy, PartialEq, Eq, Hash)]
pub struct Deck<const SIZE: usize, const TRUMP: u8> {
    pub cards: [u8; SIZE],
}

} // verus!
