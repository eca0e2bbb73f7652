//! How two cards compare in a trick.
//!
//! Cards of one suit go by rank. A trump beats a card of another suit that is
//! no trump. Any other pair has no order: `partial_cmp` answers `None` for it,
//! and `cmp` may not be called on it.

use vstd::prelude::*;
use vstd::std_specs::cmp::PartialOrdSpec;
use std::cmp::Ordering;
use crate::card::Card;
use crate::card::lemma_fields_by_mask;

verus! {

impl Card {
    /// The order of the two rank fields as numbers.
    pub open spec fn rank_ordering(&self, other: &Card) -> Ordering {
        if self.rank_field() < other.rank_field() {
            Ordering::Less
        } else if self.rank_field() == other.rank_field() {
            Ordering::Equal
        } else {
            Ordering::Greater
        }
    }

    /// Compares the ranks of two cards and nothing else.
    #[verifier::when_used_as_spec(rank_ordering)]
    pub fn cmp_rank(&self, card2: &Card) -> (o: Ordering)
        ensures
            o == self.rank_ordering(card2),
    {
        let rank1 = self.packed() >> 4;
        let rank2 = card2.packed() >> 4;
        proof {
            lemma_fields_by_mask(self@);
            lemma_fields_by_mask(card2@);
        }
        rank1.cmp(&rank2)
    }

    /// Whether the two cards have an order: they are of one suit, or exactly
    /// one of them is a trump.
    pub open spec fn comparable(&self, other: &Card) -> bool {
        self.spec_same_suit(other) || self.spec_is_trump() != other.spec_is_trump()
    }

    /// Orders two cards that have an order.
    ///
    /// Two cards of different suits of which neither or both are trumps have
    /// none, and the precondition keeps them out. Where that is not known
    /// beforehand, `partial_cmp` is the operation to use.
    pub fn cmp(&self, other: &Card) -> (o: Ordering)
        requires
            self.comparable(other),
        ensures
            self.partial_cmp_spec(other) == Some(o),
    {
        if self.same_suit(other) {
            self.cmp_rank(other)
        } else if self.is_trump() {
            Ordering::Greater
        } else {
            Ordering::Less
        }
    }
}

/// The order of a trick as `<`, `<=`, `>` and `>=`.
///
/// It looks at suits, trumps and ranks only. Two cards of one suit and rank
/// that were made under different trump suits are `Equal` here without being
/// `==`.
impl PartialOrd for Card {
    /// Orders two cards, or answers `None` where they have no order.
    fn partial_cmp(&self, other: &Card) -> (o: Option<Ordering>) {
        let same_suit = self.same_suit(other);
        let self_is_trump = self.is_trump();
        let other_is_trump = other.is_trump();
        if same_suit {
            Some(self.cmp_rank(other))
        } else if self_is_trump && !other_is_trump {
            Some(Ordering::Greater)
        } else if other_is_trump && !self_is_trump {
            Some(Ordering::Less)
        } else {
            None
        }
    }
}

impl vstd::std_specs::cmp::PartialOrdSpecImpl for Card {
    open spec fn obeys_partial_cmp_spec() -> bool {
        true
    }

    /// The order of a trick. Of one suit: by rank. Of two suits: the trump
    /// is the greater if exactly one of the two is a trump, and there is no
    /// order otherwise.
    open spec fn partial_cmp_spec(&self, other: &Card) -> Option<Ordering> {
        if self.spec_same_suit(other) {
            Some(self.rank_ordering(other))
        } else if self.spec_is_trump() && !other.spec_is_trump() {
            Some(Ordering::Greater)
        } else if other.spec_is_trump() && !self.spec_is_trump() {
            Some(Ordering::Less)
        } else {
            None
        }
    }
}

} // verus!
