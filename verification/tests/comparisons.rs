use trump_cards::{Card, Rank, Suit};

#[test]
fn test_comparisons() {
    for s in 0..=3u8 {
        let suit1: Suit = Suit::from_bits(s).unwrap();
        for s2 in 0..=3u8 {
            let suit2: Suit = Suit::from_bits(s2).unwrap();
            for rnk in 2..=14u8 {
                let rank1: Rank = Rank::from_bits(rnk).unwrap();
                for rnk2 in 2..=14u8 {
                    let rank2: Rank = Rank::from_bits(rnk2).unwrap();
                    for t in 0..=3u8 {
                        let trump_suit: Suit = Suit::from_bits(t).unwrap();
                        let card1 = Card::new(suit1, trump_suit, rank1);
                        let card2 = Card::new(suit2, trump_suit, rank2);
                        println!("{suit1:?} {rank1:?}");
                        println!("{suit2:?} {rank2:?}");
                        assert_eq!(rank1 > rank2, card1.is_bigger(&card2));
                        assert_eq!(rank1 < rank2, card2.is_bigger(&card1));
                        assert_eq!(suit1 == trump_suit, card1.is_trump());
                        assert_eq!(suit2 == trump_suit, card2.is_trump());
                        assert_eq!(suit1 == suit2, card1.same_suit(&card2));
                        assert_eq!(card2.same_suit(&card1), card1.same_suit(&card2));
                        println!("{}", card1.debug_string());
                        println!("{}", card2.debug_string());
                        assert_eq!(suit1, card1.get_suit());
                        assert_eq!(suit2, card2.get_suit());
                        assert_eq!(trump_suit, card1.get_trump_suit());
                        assert_eq!(trump_suit, card2.get_trump_suit());

                        if suit1 == suit2 {
                            assert_eq!(rank1 > rank2, card1 > card2);
                            assert_eq!(rank2 > rank1, card2 > card1);
                            assert_eq!(rank1 < rank2, card1 < card2);
                            assert_eq!(rank2 < rank1, card2 < card1);
                        } else if suit1 == trump_suit {
                            if suit2 == trump_suit {
                                assert_eq!(rank1 > rank2, card1 > card2);
                                assert_eq!(rank2 > rank1, card2 > card1);
                                assert_eq!(rank1 < rank2, card1 < card2);
                                assert_eq!(rank2 < rank1, card2 < card1);
                            } else {
                                println!(" {} > {} ", card1.debug_string(), card2.debug_string());
                                assert!(card1 > card2);
                                println!(" {} < {} ", card2.debug_string(), card1.debug_string());
                                assert!(card2 < card1);
                            }
                        } else if suit2 == trump_suit {
                            if suit1 == trump_suit {
                                assert_eq!(rank1 > rank2, card1 > card2);
                                assert_eq!(rank2 > rank1, card2 > card1);
                                assert_eq!(rank1 < rank2, card1 < card2);
                                assert_eq!(rank2 < rank1, card2 < card1);
                            } else {
                                println!(" {} < {} ", card1.debug_string(), card2.debug_string());
                                assert!(card1 < card2);
                                println!(" {} > {} ", card2.debug_string(), card1.debug_string());
                                assert!(card2 > card1);
                            }
                        }
                    }
                }
            }
        }
    }
}
