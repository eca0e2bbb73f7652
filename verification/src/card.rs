//! The packed card: layout, construction and field access.

use vstd::prelude::*;
use crate::decode::DecodeError;
use crate::rank::Rank;
use crate::suit::Suit;

verus! {

/// A playing card in one byte.
///
/// ```text
///         trump suit
///         |=|
/// 0 0 0 0 0 0 0 0
/// |=====|     |=|
///  rank       suit
/// ```
///
/// The trump suit is the one that was named when the card was made; it
/// travels with the card. The rank field of a card always holds the code of
/// a rank, so every card decodes.
#[derive(Clone, Copy, PartialEq, Eq, Hash, Structural)]
pub struct Card {
    packed: u8,
}

const SUIT_MASK: u8 = 0b0000_0011;

const TRUMP_SUIT_MASK: u8 = 0b0000_1100;

const RANK_MASK: u8 = 0b1111_0000;

/// What masking and shifting a byte yields, in arithmetic.
pub(crate) proof fn lemma_fields_by_mask(packed: u8)
    by (bit_vector)
    ensures
        packed & 0b0000_0011 == packed % 4,
        (packed & 0b0000_1100) >> 2 == packed / 4 % 4,
        (packed & 0b1111_0000) >> 4 == packed / 16,
        packed >> 4 == packed / 16,
{
}

/// Whether a byte is the packed form of a card: its rank field holds the code
/// of a rank. The two suit fields hold the code of a suit whatever their bits
/// are.
pub open spec fn is_packed_card(packed: u8) -> bool {
    2 <= packed / 16 <= 14
}

impl View for Card {
    type V = u8;

    /// The packed byte, which is all there is to a card.
    closed spec fn view(&self) -> u8 {
        self.packed
    }
}

impl Card {
    /// The layout: rank in the high four bits, then two bits of trump suit,
    /// then two bits of suit.
    pub open spec fn encoding(suit: Suit, trump_suit: Suit, rank: Rank) -> u8 {
        (16 * rank.code() + 4 * trump_suit.code() + suit.code()) as u8
    }

    /// Bits 0 and 1 of the packed byte.
    pub open spec fn suit_field(self) -> u8 {
        self@ % 4
    }

    /// Bits 2 and 3 of the packed byte.
    pub open spec fn trump_field(self) -> u8 {
        self@ / 4 % 4
    }

    /// Bits 4 to 7 of the packed byte.
    pub open spec fn rank_field(self) -> u8 {
        self@ / 16
    }

    /// Whether the card decodes. Every card that a program holds does.
    #[verifier::type_invariant]
    pub open spec fn well_formed(self) -> bool {
        is_packed_card(self@)
    }

    /// The card's suit.
    pub open spec fn suit(self) -> Suit {
        Suit::with_code(self.suit_field()).unwrap()
    }

    /// The suit that was trump when the card was made.
    pub open spec fn trump_suit(self) -> Suit {
        Suit::with_code(self.trump_field()).unwrap()
    }

    /// The card's rank.
    pub open spec fn rank(self) -> Rank
        recommends
            self.well_formed(),
    {
        Rank::with_code(self.rank_field()).unwrap()
    }

    /// The card that `new` makes.
    pub closed spec fn spec_new(suit: Suit, trump_suit: Suit, rank: Rank) -> Card {
        Card { packed: Card::encoding(suit, trump_suit, rank) }
    }

    /// Packs a suit, the trump suit of the round and a rank into a card.
    #[verifier::when_used_as_spec(spec_new)]
    pub fn new(suit: Suit, trump_suit: Suit, rank: Rank) -> (card: Card)
        ensures
            card == Card::spec_new(suit, trump_suit, rank),
            card@ == Card::encoding(suit, trump_suit, rank),
            card.suit() == suit,
            card.trump_suit() == trump_suit,
            card.rank() == rank,
            card.well_formed(),
    {
        let suit_bits = suit.to_bits();
        let trump_bits = trump_suit.to_bits();
        let rank_bits = rank.to_bits();
        let packed = (rank_bits << 4) | (trump_bits << 2) | suit_bits;
        assert(packed == 16 * rank_bits + 4 * trump_bits + suit_bits) by (bit_vector)
            requires
                packed == (rank_bits << 4) | (trump_bits << 2) | suit_bits,
                rank_bits <= 14,
                trump_bits <= 3,
                suit_bits <= 3,
        ;
        Card { packed }
    }

    /// Decodes a byte. It is a card exactly when its rank field holds the
    /// code of a rank; the error tells what the field held instead.
    pub fn from_packed(packed: u8) -> (decoded: Result<Card, DecodeError>)
        ensures
            decoded is Ok <==> is_packed_card(packed),
            decoded matches Ok(card) ==> card@ == packed,
            decoded matches Err(e) ==> e == DecodeError::InvalidRank(packed / 16),
    {
        let rank_bits = packed >> 4;
        proof {
            lemma_fields_by_mask(packed);
        }
        if 2 <= rank_bits && rank_bits <= 14 {
            Ok(Card { packed })
        } else {
            Err(DecodeError::InvalidRank(rank_bits))
        }
    }

    /// The packed byte.
    pub fn packed(&self) -> (packed: u8)
        ensures
            packed == self@,
            is_packed_card(packed),
    {
        proof {
            use_type_invariant(self);
        }
        self.packed
    }

    /// The suit that was trump when the card was made.
    pub fn get_trump_suit(&self) -> (suit: Suit)
        ensures
            suit == self.trump_suit(),
            suit.code() == self.trump_field(),
    {
        let bits = (self.packed & TRUMP_SUIT_MASK) >> 2;
        proof {
            lemma_fields_by_mask(self.packed);
        }
        Suit::from_bits(bits).unwrap()
    }

    /// The card's suit.
    pub fn get_suit(&self) -> (suit: Suit)
        ensures
            suit == self.suit(),
            suit.code() == self.suit_field(),
    {
        let bits = self.packed & SUIT_MASK;
        proof {
            lemma_fields_by_mask(self.packed);
        }
        Suit::from_bits(bits).unwrap()
    }

    /// The card's rank.
    pub fn get_rank(&self) -> (rank: Rank)
        ensures
            rank == self.rank(),
            rank.code() == self.rank_field(),
    {
        let bits = (self.packed & RANK_MASK) >> 4;
        proof {
            use_type_invariant(self);
            lemma_fields_by_mask(self.packed);
        }
        Rank::from_bits(bits).unwrap()
    }

    /// Whether the card is a trump: its suit is the trump suit it was made
    /// with.
    pub open spec fn spec_is_trump(&self) -> bool {
        self.suit_field() == self.trump_field()
    }

    /// Whether the card is a trump: its suit is the trump suit it was made
    /// with.
    #[verifier::when_used_as_spec(spec_is_trump)]
    pub fn is_trump(&self) -> (b: bool)
        ensures
            b == self.spec_is_trump(),
            b == (self.suit() == self.trump_suit()),
    {
        let trump_suit = (self.packed & TRUMP_SUIT_MASK) >> 2;
        let suit = self.packed & SUIT_MASK;
        proof {
            lemma_fields_by_mask(self.packed);
        }
        trump_suit == suit
    }

    /// Whether two cards have the same suit, whatever their ranks and trump
    /// suits.
    pub open spec fn spec_same_suit(&self, other: &Card) -> bool {
        self.suit_field() == other.suit_field()
    }

    /// Whether two cards have the same suit, whatever their ranks and trump
    /// suits.
    #[verifier::when_used_as_spec(spec_same_suit)]
    pub fn same_suit(&self, card2: &Card) -> (b: bool)
        ensures
            b == self.spec_same_suit(card2),
            b == (self.suit() == card2.suit()),
    {
        let suit1 = self.packed & SUIT_MASK;
        let suit2 = card2.packed & SUIT_MASK;
        proof {
            lemma_fields_by_mask(self.packed);
            lemma_fields_by_mask(card2.packed);
        }
        suit1 == suit2
    }

    /// Whether this card's rank is strictly above the other's. Suits and
    /// trumps play no part.
    pub open spec fn spec_is_bigger(&self, other: &Card) -> bool {
        self.rank_field() > other.rank_field()
    }

    /// Whether this card's rank is strictly above the other's. Suits and
    /// trumps play no part, so this orders two cards only where the caller
    /// knows them to be of one suit.
    #[verifier::when_used_as_spec(spec_is_bigger)]
    pub fn is_bigger(&self, card2: &Card) -> (b: bool)
        ensures
            b == self.spec_is_bigger(card2),
    {
        proof {
            lemma_fields_by_mask(self.packed);
            lemma_fields_by_mask(card2.packed);
        }
        self.packed >> 4 > card2.packed >> 4
    }
}

/// The card that `new` makes holds the encoding of its three arguments, and
/// it decodes.
pub proof fn lemma_new_packs(suit: Suit, trump_suit: Suit, rank: Rank)
    ensures
        Card::new(suit, trump_suit, rank)@ == Card::encoding(suit, trump_suit, rank),
        Card::new(suit, trump_suit, rank).well_formed(),
{
}

/// Two cards are equal exactly when their packed bytes are.
pub proof fn lemma_equal_by_byte(a: Card, b: Card)
    ensures
        a == b <==> a@ == b@,
{
}

} // verus!
