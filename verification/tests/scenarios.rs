use std::cmp::Ordering;
use trump_cards::{Card, Rank, Suit};

#[test]
fn trump_beats_a_higher_card_of_another_suit() {
    let ace_of_trumps = Card::new(Suit::Spades, Suit::Spades, Rank::Ace);
    let king = Card::new(Suit::Hearts, Suit::Spades, Rank::King);
    assert!(ace_of_trumps.is_trump());
    assert!(!king.is_trump());
    assert!(!ace_of_trumps.same_suit(&king));
    assert_eq!(ace_of_trumps.partial_cmp(&king), Some(Ordering::Greater));
    assert_eq!(ace_of_trumps.cmp(&king), Ordering::Greater);
    assert_eq!(king.partial_cmp(&ace_of_trumps), Some(Ordering::Less));
    assert_eq!(king.cmp(&ace_of_trumps), Ordering::Less);
}

#[test]
fn low_trump_beats_the_ace_of_another_suit() {
    let two_of_trumps = Card::new(Suit::Diamonds, Suit::Diamonds, Rank::Two);
    let ace = Card::new(Suit::Clubs, Suit::Diamonds, Rank::Ace);
    assert!(two_of_trumps > ace);
    assert!(ace < two_of_trumps);
    assert!(ace.is_bigger(&two_of_trumps));
}

#[test]
fn same_suit_goes_by_rank() {
    let ace = Card::new(Suit::Hearts, Suit::Spades, Rank::Ace);
    let two = Card::new(Suit::Hearts, Suit::Spades, Rank::Two);
    assert!(ace.same_suit(&two));
    assert_eq!(ace.partial_cmp(&two), Some(Ordering::Greater));
    assert_eq!(ace.cmp(&two), Ordering::Greater);
    assert_eq!(two.cmp(&ace), Ordering::Less);
    assert_eq!(ace.cmp_rank(&two), Ordering::Greater);
    assert!(ace > two);
    assert!(two < ace);
}

#[test]
fn same_suit_same_rank_is_equal_in_order() {
    let a = Card::new(Suit::Clubs, Suit::Spades, Rank::Ten);
    let b = Card::new(Suit::Clubs, Suit::Spades, Rank::Ten);
    assert_eq!(a.partial_cmp(&b), Some(Ordering::Equal));
    assert_eq!(a.cmp(&b), Ordering::Equal);
    assert!(a <= b);
    assert!(a >= b);
    assert!(!(a < b));
    assert!(!(a > b));
}

#[test]
fn two_plain_suits_have_no_order() {
    let ace = Card::new(Suit::Clubs, Suit::Spades, Rank::Ace);
    let king = Card::new(Suit::Diamonds, Suit::Spades, Rank::King);
    assert_eq!(ace.partial_cmp(&king), None);
    assert_eq!(king.partial_cmp(&ace), None);
    assert!(!(ace < king));
    assert!(!(ace > king));
    assert!(!(ace <= king));
    assert!(!(ace >= king));
    assert!(ace != king);
}

#[test]
fn two_trumps_of_different_suits_have_no_order() {
    let spade = Card::new(Suit::Spades, Suit::Spades, Rank::Nine);
    let heart = Card::new(Suit::Hearts, Suit::Hearts, Rank::Jack);
    assert!(spade.is_trump());
    assert!(heart.is_trump());
    assert_eq!(spade.partial_cmp(&heart), None);
    assert_eq!(heart.partial_cmp(&spade), None);
}

#[test]
fn trump_under_its_own_trump_suit_beats_a_card_made_under_another() {
    let trump = Card::new(Suit::Spades, Suit::Spades, Rank::Three);
    let plain = Card::new(Suit::Clubs, Suit::Hearts, Rank::King);
    assert_eq!(trump.partial_cmp(&plain), Some(Ordering::Greater));
    assert_eq!(plain.partial_cmp(&trump), Some(Ordering::Less));
    assert_eq!(trump.cmp(&plain), Ordering::Greater);
    assert_eq!(plain.cmp(&trump), Ordering::Less);
}

#[test]
fn two_of_hearts_under_hearts() {
    let card = Card::new(Suit::Hearts, Suit::Hearts, Rank::Two);
    assert!(card.is_trump());
    assert_eq!(card.get_suit(), Suit::Hearts);
    assert_eq!(card.get_rank(), Rank::Two);
    assert_eq!(card.get_trump_suit(), Suit::Hearts);
    assert_eq!(card.packed(), 0b0010_0000);
}

#[test]
fn queen_of_spades_in_words() {
    let card = Card::new(Suit::Spades, Suit::Hearts, Rank::Queen);
    assert_eq!(card.to_string(), "Queen of Spades");
}

#[test]
fn cmp_agrees_with_partial_cmp_wherever_there_is_an_order() {
    let mut ordered = 0usize;
    let mut unordered = 0usize;
    for a in 0..=255u8 {
        for b in 0..=255u8 {
            if let (Ok(x), Ok(y)) = (Card::from_packed(a), Card::from_packed(b)) {
                match x.partial_cmp(&y) {
                    Some(o) => {
                        ordered += 1;
                        assert_eq!(x.cmp(&y), o);
                        assert_eq!(y.partial_cmp(&x), Some(o.reverse()));
                        assert!(x.same_suit(&y) || x.is_trump() != y.is_trump());
                    }
                    None => {
                        unordered += 1;
                        assert!(!x.same_suit(&y));
                        assert_eq!(x.is_trump(), y.is_trump());
                        assert_eq!(y.partial_cmp(&x), None);
                    }
                }
            }
        }
    }
    // There are 208 cards, 52 of each suit. A pair of one suit has an order.
    // A pair of two suits has one under 6 of the 16 pairs of trump suits: a
    // card is a trump under 1 of the 4.
    assert_eq!(ordered + unordered, 208 * 208);
    assert_eq!(ordered, 4 * 52 * 52 + 12 * 13 * 13 * 6);
}

#[test]
fn cmp_rank_ignores_suits_and_trumps() {
    let low = Card::new(Suit::Spades, Suit::Spades, Rank::Four);
    let high = Card::new(Suit::Hearts, Suit::Clubs, Rank::Jack);
    assert_eq!(low.cmp_rank(&high), Ordering::Less);
    assert_eq!(high.cmp_rank(&low), Ordering::Greater);
    assert_eq!(low.cmp_rank(&low), Ordering::Equal);
    assert!(high.is_bigger(&low));
    assert!(!low.is_bigger(&high));
    assert!(!low.is_bigger(&low));
}
