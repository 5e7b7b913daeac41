//! A deck of cards that know whether they face up.

use vstd::prelude::*;

use super::card::{Card, Rank, Suit};

verus! {

/// The card at position `i` of a fresh deck: suits in canonical order, ranks from 1 to 13,
/// all face down.
pub open spec fn spec_fresh_card(i: int) -> Card {
    Card { face_up: false, rank: Rank((i % 13 + 1) as u8), suit: Suit::spec_values()[i / 13] }
}

/// A deck of cards; its top is the end of the sequence.
#[derive(Clone, Debug)]
pub struct Deck {
    pub cards: Vec<Card>,
}

impl Deck {
    /// The 52 cards face down, by suit in canonical order and then by rank.
    pub fn new() -> (deck: Deck)
        ensures
            deck.cards@ == Seq::new(52, |i: int| spec_fresh_card(i)),
    {
        let mut cards: Vec<Card> = Vec::new();
        let suits = Suit::values();
        let mut s: usize = 0;
        while s < 4
            invariant
                suits@ == Suit::spec_values(),
                s <= 4,
                cards@.len() == 13 * s,
                forall|i: int| 0 <= i < cards@.len() ==> #[trigger] cards@[i] == spec_fresh_card(i),
            decreases 4 - s,
        {
            let suit = suits[s];
            let mut value: u8 = 1;
            while value <= 13
                invariant
                    suits@ == Suit::spec_values(),
                    s < 4,
                    suit == Suit::spec_values()[s as int],
                    1 <= value <= 14,
                    cards@.len() == 13 * s + value - 1,
                    forall|i: int|
                        0 <= i < cards@.len() ==> #[trigger] cards@[i] == spec_fresh_card(i),
                decreases 14 - value,
            {
                cards.push(Card { face_up: false, rank: Rank(value), suit });
                proof {
                    let i = 13 * s + value - 1;
                    assert(i / 13 == s as int) by (nonlinear_arith)
                        requires
                            i == 13 * s + value - 1,
                            1 <= value <= 13,
                    ;
                    assert(i % 13 == value - 1) by (nonlinear_arith)
                        requires
                            i == 13 * s + value - 1,
                            1 <= value <= 13,
                    ;
                }
                value = value + 1;
            }
            s = s + 1;
        }
        assert(cards@ =~= Seq::new(52, |i: int| spec_fresh_card(i)));
        Deck { cards }
    }

    /// Takes the top card, if there is one.
    pub fn deal_one(&mut self) -> (card: Option<Card>)
        ensures
            old(self).cards@.len() == 0 ==> card is None && final(self).cards@ == old(self).cards@,
            old(self).cards@.len() > 0 ==> card == Some(old(self).cards@.last())
                && final(self).cards@ == old(self).cards@.drop_last(),
    {
        self.cards.pop()
    }

    /// Takes the top `count` cards, in deck order, or nothing when fewer than `count` remain.
    pub fn deal(&mut self, count: usize) -> (cards: Vec<Card>)
        ensures
            count <= old(self).cards@.len() ==> {
                &&& cards@ == old(self).cards@.skip(old(self).cards@.len() - count)
                &&& final(self).cards@ == old(self).cards@.take(old(self).cards@.len() - count)
            },
            count > old(self).cards@.len() ==> cards@.len() == 0 && final(self).cards@ == old(
                self,
            ).cards@,
    {
        let len = self.cards.len();
        if count <= len {
            self.cards.split_off(len - count)
        } else {
            Vec::new()
        }
    }

    /// Takes all remaining cards, in deck order, leaving the deck empty.
    pub fn deal_rest(&mut self) -> (cards: Vec<Card>)
        ensures
            cards@ == old(self).cards@,
            final(self).cards@.len() == 0,
    {
        self.cards.split_off(0)
    }
}

} // verus!
