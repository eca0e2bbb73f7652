//! What the library promises of codes, cards and their order, each as a
//! proof.
//!
//! Where a law speaks of two cards made under one trump suit, the first is
//! `Card::new(s1, trump, r1)` and the second is `Card::new(s2, trump, r2)`.
//! Ranks compare by their codes. `a.is_lt(&b)` and `a.is_gt(&b)` are what
//! `a < b` and `a > b` compute: that `partial_cmp` finds `a` to be less, or
//! greater, than `b`. `cmp` returns what `partial_cmp` finds wherever the two
//! cards are `comparable`.

use vstd::prelude::*;
use vstd::std_specs::cmp::PartialOrdIs;
use vstd::std_specs::cmp::PartialOrdSpec;
use std::cmp::Ordering;
use crate::card::Card;
use crate::card::lemma_equal_by_byte;
use crate::card::lemma_new_packs;
use crate::rank::Rank;
use crate::suit::Suit;

verus! {

/// A suit's code is at most 3 and decodes to that suit.
pub proof fn lemma_suit_code_decodes(suit: Suit)
    ensures
        suit.code() <= 3,
        Suit::with_code(suit.code()) == Some(suit),
{
}

/// The codes of suits are 0 to 3, and a decoded suit has the code it was
/// decoded from.
pub proof fn lemma_suit_decoding(code: u8)
    ensures
        Suit::with_code(code) is Some <==> code <= 3,
        Suit::with_code(code) matches Some(suit) ==> suit.code() == code,
{
}

/// A rank's code lies between 2 and 14 and decodes to that rank.
pub proof fn lemma_rank_code_decodes(rank: Rank)
    ensures
        2 <= rank.code() <= 14,
        Rank::with_code(rank.code()) == Some(rank),
{
}

/// The codes of ranks are 2 to 14, and a decoded rank has the code it was
/// decoded from.
pub proof fn lemma_rank_decoding(code: u8)
    ensures
        Rank::with_code(code) is Some <==> 2 <= code <= 14,
        Rank::with_code(code) matches Some(rank) ==> rank.code() == code,
{
}

/// A card gives back the suit, the trump suit and the rank it was made from.
pub proof fn lemma_fields_round_trip(suit: Suit, trump: Suit, rank: Rank)
    ensures
        Card::new(suit, trump, rank).suit() == suit,
        Card::new(suit, trump, rank).trump_suit() == trump,
        Card::new(suit, trump, rank).rank() == rank,
        Card::new(suit, trump, rank).well_formed(),
{
    lemma_new_packs(suit, trump, rank);
}

/// Two cards are of the same suit exactly when they were made with the same
/// suit, and it does not matter which of the two is asked.
pub proof fn lemma_same_suit(s1: Suit, s2: Suit, trump: Suit, r1: Rank, r2: Rank)
    ensures
        Card::new(s1, trump, r1).same_suit(&Card::new(s2, trump, r2)) == (s1 == s2),
        Card::new(s1, trump, r1).same_suit(&Card::new(s2, trump, r2)) == Card::new(
            s2,
            trump,
            r2,
        ).same_suit(&Card::new(s1, trump, r1)),
{
    lemma_new_packs(s1, trump, r1);
    lemma_new_packs(s2, trump, r2);
}

/// `same_suit` is symmetric on all cards.
pub proof fn lemma_same_suit_symmetric(a: Card, b: Card)
    ensures
        a.same_suit(&b) == b.same_suit(&a),
{
}

/// A card is a trump exactly when it was made with the trump suit as its
/// suit.
pub proof fn lemma_is_trump(suit: Suit, trump: Suit, rank: Rank)
    ensures
        Card::new(suit, trump, rank).is_trump() == (suit == trump),
{
    lemma_new_packs(suit, trump, rank);
}

/// `is_bigger` compares the ranks as numbers, in either direction, whatever
/// the suits are.
pub proof fn lemma_is_bigger(s1: Suit, s2: Suit, trump: Suit, r1: Rank, r2: Rank)
    ensures
        Card::new(s1, trump, r1).is_bigger(&Card::new(s2, trump, r2)) == (r1.code() > r2.code()),
        Card::new(s2, trump, r2).is_bigger(&Card::new(s1, trump, r1)) == (r2.code() > r1.code()),
{
    lemma_new_packs(s1, trump, r1);
    lemma_new_packs(s2, trump, r2);
}

/// Two cards of one suit have an order, and it is that of their ranks.
pub proof fn lemma_same_suit_orders_by_rank(s1: Suit, s2: Suit, trump: Suit, r1: Rank, r2: Rank)
    requires
        s1 == s2,
    ensures
        Card::new(s1, trump, r1).comparable(&Card::new(s2, trump, r2)),
        Card::new(s1, trump, r1).is_gt(&Card::new(s2, trump, r2)) <==> r1.code() > r2.code(),
        Card::new(s1, trump, r1).is_lt(&Card::new(s2, trump, r2)) <==> r1.code() < r2.code(),
        Card::new(s1, trump, r1).partial_cmp_spec(&Card::new(s2, trump, r2)) == Some(
            Ordering::Equal,
        ) <==> r1.code() == r2.code(),
{
    lemma_new_packs(s1, trump, r1);
    lemma_new_packs(s2, trump, r2);
}

/// A trump is greater than any card of another suit, and that card is less
/// than the trump, whatever the two ranks are.
pub proof fn lemma_trump_beats_other_suit(s1: Suit, s2: Suit, trump: Suit, r1: Rank, r2: Rank)
    requires
        s1 == trump,
        s2 != trump,
    ensures
        Card::new(s1, trump, r1).comparable(&Card::new(s2, trump, r2)),
        Card::new(s2, trump, r2).comparable(&Card::new(s1, trump, r1)),
        Card::new(s1, trump, r1).is_gt(&Card::new(s2, trump, r2)),
        Card::new(s2, trump, r2).is_lt(&Card::new(s1, trump, r1)),
{
    lemma_new_packs(s1, trump, r1);
    lemma_new_packs(s2, trump, r2);
}

/// A card of another suit is less than any trump, and the trump is greater
/// than that card, whatever the two ranks are.
pub proof fn lemma_other_suit_loses_to_trump(s1: Suit, s2: Suit, trump: Suit, r1: Rank, r2: Rank)
    requires
        s2 == trump,
        s1 != trump,
    ensures
        Card::new(s1, trump, r1).comparable(&Card::new(s2, trump, r2)),
        Card::new(s2, trump, r2).comparable(&Card::new(s1, trump, r1)),
        Card::new(s1, trump, r1).is_lt(&Card::new(s2, trump, r2)),
        Card::new(s2, trump, r2).is_gt(&Card::new(s1, trump, r1)),
{
    lemma_new_packs(s1, trump, r1);
    lemma_new_packs(s2, trump, r2);
}

/// Two cards of different suits, neither of them the trump suit, have no
/// order: `partial_cmp` finds none, so the first is neither less nor greater
/// than the second, and the two are not equal either.
pub proof fn lemma_plain_suits_have_no_order(s1: Suit, s2: Suit, trump: Suit, r1: Rank, r2: Rank)
    requires
        s1 != s2,
        s1 != trump,
        s2 != trump,
    ensures
        !Card::new(s1, trump, r1).comparable(&Card::new(s2, trump, r2)),
        Card::new(s1, trump, r1).partial_cmp_spec(&Card::new(s2, trump, r2)) is None,
        !Card::new(s1, trump, r1).is_lt(&Card::new(s2, trump, r2)),
        !Card::new(s1, trump, r1).is_gt(&Card::new(s2, trump, r2)),
        Card::new(s1, trump, r1) != Card::new(s2, trump, r2),
{
    lemma_new_packs(s1, trump, r1);
    lemma_new_packs(s2, trump, r2);
}

/// Two cards have an order exactly when `partial_cmp` finds one.
pub proof fn lemma_comparable_means_ordered(a: Card, b: Card)
    ensures
        a.comparable(&b) <==> a.partial_cmp_spec(&b) is Some,
{
}

/// Seen from the other card the order is the reverse: less for greater,
/// equal for equal, none for none.
pub proof fn lemma_order_reverses(a: Card, b: Card)
    ensures
        a.is_lt(&b) <==> b.is_gt(&a),
        a.partial_cmp_spec(&b) == Some(Ordering::Equal) <==> b.partial_cmp_spec(&a) == Some(
            Ordering::Equal,
        ),
        a.partial_cmp_spec(&b) is None <==> b.partial_cmp_spec(&a) is None,
{
}

/// Equality of cards is an equivalence, and it is equality of the packed
/// bytes.
pub proof fn lemma_equality(a: Card, b: Card, c: Card)
    ensures
        a == a,
        a == b ==> b == a,
        a == b && b == c ==> a == c,
        a == b <==> a@ == b@,
{
    lemma_equal_by_byte(a, b);
}

} // verus!
