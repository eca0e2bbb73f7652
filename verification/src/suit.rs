//! The four suits and their two-bit codes.

use vstd::prelude::*;
use crate::decode::DecodeError;

verus! {

/// A suit. The declaration order gives each suit its code and carries no
/// meaning in play.
#[derive(Debug, PartialEq, Eq, PartialOrd, Ord, Clone, Copy, Structural)]
pub enum Suit {
    Hearts,
    Diamonds,
    Clubs,
    Spades,
}

impl Suit {
    /// The two-bit code that stands for the suit inside a packed card.
    pub open spec fn code(self) -> u8 {
        match self {
            Suit::Hearts => 0,
            Suit::Diamonds => 1,
            Suit::Clubs => 2,
            Suit::Spades => 3,
        }
    }

    /// The suit with the given code, if there is one.
    pub open spec fn with_code(code: u8) -> Option<Suit> {
        match code {
            0 => Some(Suit::Hearts),
            1 => Some(Suit::Diamonds),
            2 => Some(Suit::Clubs),
            3 => Some(Suit::Spades),
            _ => None,
        }
    }

    /// The suit's name as a sequence of characters.
    pub open spec fn label(self) -> Seq<char> {
        match self {
            Suit::Hearts => "Hearts"@,
            Suit::Diamonds => "Diamonds"@,
            Suit::Clubs => "Clubs"@,
            Suit::Spades => "Spades"@,
        }
    }

    /// Encodes the suit as its two-bit code.
    pub fn to_bits(self) -> (bits: u8)
        ensures
            bits == self.code(),
            bits <= 3,
    {
        match self {
            Suit::Hearts => 0,
            Suit::Diamonds => 1,
            Suit::Clubs => 2,
            Suit::Spades => 3,
        }
    }

    /// Decodes a two-bit code. Every value above 3 is refused.
    pub fn from_bits(bits: u8) -> (decoded: Result<Suit, DecodeError>)
        ensures
            decoded is Ok <==> bits <= 3,
            decoded matches Ok(suit) ==> Suit::with_code(bits) == Some(suit) && suit.code() == bits,
            decoded matches Err(e) ==> e == DecodeError::InvalidSuit(bits),
    {
        match bits {
            0 => Ok(Suit::Hearts),
            1 => Ok(Suit::Diamonds),
            2 => Ok(Suit::Clubs),
            3 => Ok(Suit::Spades),
            _ => Err(DecodeError::InvalidSuit(bits)),
        }
    }

    /// The suit's name.
    pub fn name(self) -> (s: &'static str)
        ensures
            s@ == self.label(),
    {
        match self {
            Suit::Hearts => "Hearts",
            Suit::Diamonds => "Diamonds",
            Suit::Clubs => "Clubs",
            Suit::Spades => "Spades",
        }
    }
}

} // verus!
