//! The table of a Klondike game seen as piles: each area is a squared-up pile with, for the
//! talon and the tableaux, cards fanned out on top of it.

use vstd::prelude::*;

use super::card::{Card, Suit};

verus! {

/// A pile of cards with cards fanned out over it.
#[derive(Copy, Clone, Debug)]
pub struct CardStack<'a> {
    pub pile: &'a [Card],
    pub fanned: &'a [Card],
}

/// The areas of a game: the stock, the talon, one foundation for each suit, and the tableaux.
#[derive(Debug)]
pub struct KlondikeGame {
    pub stock: Vec<Card>,
    pub talon_pile: Vec<Card>,
    pub talon_fanned: Vec<Card>,
    pub foundation_clubs: Vec<Card>,
    pub foundation_diamonds: Vec<Card>,
    pub foundation_hearts: Vec<Card>,
    pub foundation_spades: Vec<Card>,
    pub tableaux: Vec<Vec<Card>>,
}

impl KlondikeGame {
    /// The cards of the foundation of `suit`.
    pub open spec fn spec_foundation(&self, suit: Suit) -> Seq<Card> {
        match suit {
            Suit::Clubs => self.foundation_clubs@,
            Suit::Diamonds => self.foundation_diamonds@,
            Suit::Hearts => self.foundation_hearts@,
            Suit::Spades => self.foundation_spades@,
        }
    }

    /// The stock: a pile with nothing fanned.
    pub fn stock(&self) -> (stack: CardStack)
        ensures
            stack.pile@ == self.stock@,
            stack.fanned@.len() == 0,
    {
        let fanned: &[Card] = &[];
        CardStack { pile: self.stock.as_slice(), fanned }
    }

    /// The talon: its pile and its fanned cards.
    pub fn talon(&self) -> (stack: CardStack)
        ensures
            stack.pile@ == self.talon_pile@,
            stack.fanned@ == self.talon_fanned@,
    {
        CardStack { pile: self.talon_pile.as_slice(), fanned: self.talon_fanned.as_slice() }
    }

    /// The foundation of `suit`: a pile with nothing fanned.
    pub fn foundation_for_suit(&self, suit: &Suit) -> (stack: CardStack)
        ensures
            stack.pile@ == self.spec_foundation(*suit),
            stack.fanned@.len() == 0,
    {
        let fanned: &[Card] = &[];
        let pile = match suit {
            Suit::Clubs => self.foundation_clubs.as_slice(),
            Suit::Diamonds => self.foundation_diamonds.as_slice(),
            Suit::Hearts => self.foundation_hearts.as_slice(),
            Suit::Spades => self.foundation_spades.as_slice(),
        };
        CardStack { pile, fanned }
    }

    /// The foundations with their suits, in the canonical order of the suits.
    pub fn foundation(&self) -> (stacks: Vec<(Suit, CardStack)>)
        ensures
            stacks@.len() == 4,
            forall|i: int|
                0 <= i < 4 ==> {
                    &&& (#[trigger] stacks@[i]).0 == Suit::spec_values()[i]
                    &&& stacks@[i].1.pile@ == self.spec_foundation(Suit::spec_values()[i])
                    &&& stacks@[i].1.fanned@.len() == 0
                },
    {
        let suits = Suit::iterator();
        let mut stacks: Vec<(Suit, CardStack)> = Vec::new();
        let mut i: usize = 0;
        while i < 4
            invariant
                suits@ == Suit::spec_values(),
                i <= 4,
                stacks@.len() == i,
                forall|j: int|
                    0 <= j < i ==> {
                        &&& (#[trigger] stacks@[j]).0 == Suit::spec_values()[j]
                        &&& stacks@[j].1.pile@ == self.spec_foundation(Suit::spec_values()[j])
                        &&& stacks@[j].1.fanned@.len() == 0
                    },
            decreases 4 - i,
        {
            let suit = suits[i];
            stacks.push((suit, self.foundation_for_suit(&suit)));
            i = i + 1;
        }
        stacks
    }

    /// Tableaux `index`, all of its cards fanned, if there is such a tableaux.
    pub fn tableaux_stack(&self, index: usize) -> (stack: Option<CardStack>)
        ensures
            index < self.tableaux@.len() ==> (stack matches Some(s) && s.pile@.len() == 0
                && s.fanned@ == self.tableaux@[index as int]@),
            index >= self.tableaux@.len() ==> stack is None,
    {
        if index < self.tableaux.len() {
            let pile: &[Card] = &[];
            Some(CardStack { pile, fanned: self.tableaux[index].as_slice() })
        } else {
            None
        }
    }

    /// All tableaux, their cards fanned.
    pub fn tableaux(&self) -> (stacks: Vec<CardStack>)
        ensures
            stacks@.len() == self.tableaux@.len(),
            forall|i: int|
                0 <= i < stacks@.len() ==> (#[trigger] stacks@[i]).pile@.len() == 0
                    && stacks@[i].fanned@ == self.tableaux@[i]@,
    {
        let mut stacks: Vec<CardStack> = Vec::new();
        let mut i: usize = 0;
        while i < self.tableaux.len()
            invariant
                i <= self.tableaux@.len(),
                stacks@.len() == i,
                forall|j: int|
                    0 <= j < i ==> (#[trigger] stacks@[j]).pile@.len() == 0
                        && stacks@[j].fanned@ == self.tableaux@[j]@,
            decreases self.tableaux@.len() - i,
        {
            let pile: &[Card] = &[];
            stacks.push(CardStack { pile, fanned: self.tableaux[i].as_slice() });
            i = i + 1;
        }
        stacks
    }
}

} // verus!
