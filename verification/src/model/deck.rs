//! A deck of playing cards.

use vstd::prelude::*;

use super::card::{Card, Rank, Suit};

verus! {

/// The card at position `i` of a fresh deck: suits in index order, ranks from Ace to King.
pub open spec fn spec_standard_card(i: int) -> Card {
    Card {
        suit: Suit::spec_from_index((i / 13) as u8).unwrap(),
        rank: Rank::spec_from_value((i % 13 + 1) as u8).unwrap(),
    }
}

/// The 52 cards of a fresh deck, in order.
pub open spec fn spec_standard_deck() -> Seq<Card> {
    Seq::new(52, |i: int| spec_standard_card(i))
}

/// A deck of cards. The top of the deck is the end of the sequence.
#[derive(Clone, Debug)]
pub struct Deck {
    cards: Vec<Card>,
}

impl View for Deck {
    type V = Seq<Card>;

    closed spec fn view(&self) -> Seq<Card> {
        self.cards@
    }
}

impl Deck {
    /// A full deck of 52 cards, ordered by suit and then by rank.
    pub fn new() -> (deck: Deck)
        ensures
            deck@ == spec_standard_deck(),
    {
        let mut cards: Vec<Card> = Vec::new();
        let suits = Suit::values();
        let ranks = Rank::values();
        let mut s: usize = 0;
        while s < suits.len()
            invariant
                suits@ == Suit::spec_values(),
                ranks@ == Rank::spec_values(),
                s <= 4,
                cards@.len() == 13 * s,
                forall|i: int| 0 <= i < cards@.len() ==> #[trigger] cards@[i] == spec_standard_card(i),
            decreases 4 - s,
        {
            let suit = suits[s];
            let mut r: usize = 0;
            while r < ranks.len()
                invariant
                    suits@ == Suit::spec_values(),
                    ranks@ == Rank::spec_values(),
                    s < 4,
                    suit == Suit::spec_values()[s as int],
                    r <= 13,
                    cards@.len() == 13 * s + r,
                    forall|i: int|
                        0 <= i < cards@.len() ==> #[trigger] cards@[i] == spec_standard_card(i),
                decreases 13 - r,
            {
                let rank = ranks[r];
                cards.push(Card { rank, suit });
                proof {
                    let i = 13 * s + r;
                    assert(i / 13 == s as int) by (nonlinear_arith)
                        requires i == 13 * s + r, r < 13;
                    assert(i % 13 == r as int) by (nonlinear_arith)
                        requires i == 13 * s + r, r < 13;
                }
                r = r + 1;
            }
            s = s + 1;
        }
        assert(cards@ =~= spec_standard_deck());
        Deck { cards }
    }

    /// The cards of the deck, bottom first.
    pub fn cards(&self) -> (cards: &[Card])
        ensures
            cards@ == self@,
    {
        self.cards.as_slice()
    }

    /// The cards of the deck, bottom first, for rearranging in place.
    pub fn cards_mut(&mut self) -> (cards: &mut [Card])
        ensures
            cards@ == old(self)@,
            final(self)@ == final(cards)@,
    {
        self.cards.as_mut_slice()
    }

    /// Takes the top card, if there is one.
    pub fn deal_one(&mut self) -> (card: Option<Card>)
        ensures
            old(self)@.len() == 0 ==> card is None && final(self)@ == old(self)@,
            old(self)@.len() > 0 ==> card == Some(old(self)@.last())
                && final(self)@ == old(self)@.drop_last(),
    {
        self.cards.pop()
    }

    /// Takes the top `count` cards, in deck order, or nothing when fewer than `count` remain.
    pub fn deal(&mut self, count: usize) -> (cards: Vec<Card>)
        ensures
            count <= old(self)@.len() ==> {
                &&& cards@ == old(self)@.skip(old(self)@.len() - count)
                &&& final(self)@ == old(self)@.take(old(self)@.len() - count)
            },
            count > old(self)@.len() ==> cards@.len() == 0 && final(self)@ == old(self)@,
    {
        let len = self.cards.len();

        if count <= len {
            let cards = self.cards.split_off(len - count);
            cards
        } else {
            Vec::new()
        }
    }

    /// Takes all remaining cards, in deck order, leaving the deck empty.
    pub fn deal_rest(&mut self) -> (cards: Vec<Card>)
        ensures
            cards@ == old(self)@,
            final(self)@.len() == 0,
    {
        self.cards.split_off(0)
    }
}

impl Default for Deck {
    fn default() -> (deck: Deck)
        ensures
            deck@ == spec_standard_deck(),
    {
        Deck::new()
    }
}

} // verus!
