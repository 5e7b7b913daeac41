//! How a pile of cards is shown: which of its cards are visible, spread and selected.

use vstd::prelude::*;

use super::card::Card;
use crate::utils::index_of_last_n;

verus! {

/// The selected part of a stack.
#[derive(Copy, Clone, Debug, PartialEq, Eq, Structural)]
pub enum StackSelection {
    /// The top cards, to be picked up.
    Cards(usize),
    /// The top cards, held over the stack.
    Stack(usize),
    /// The whole stack.
    FullStack,
}

/// The layout of a stack; all lengths count cards from the top.
#[derive(Copy, Clone, Debug, PartialEq, Eq, Structural)]
pub struct StackDetails {
    pub len: usize,
    pub visible_len: usize,
    pub spread_len: usize,
    pub selection: Option<StackSelection>,
}

/// The cards of a pile, the cards floating above it, and their layout.
#[derive(Copy, Clone, Debug)]
pub struct Stack<'a> {
    pub cards: &'a [Card],
    pub floating: &'a [Card],
    pub details: StackDetails,
}

/// Index of the first of the top `len` cards of `cards`, or 0 when there are fewer.
pub open spec fn spec_index_of_last_n(len: usize, cards: Seq<Card>) -> usize {
    if len <= cards.len() {
        (cards.len() - len) as usize
    } else {
        0
    }
}

impl<'a> Stack<'a> {
    /// A stack of `cards` with nothing floating above it.
    pub fn with_cards(cards: &'a [Card], details: StackDetails) -> (s: Stack<'a>)
        ensures
            s.cards@ == cards@,
            s.floating@.len() == 0,
            s.details == details,
    {
        let floating: &[Card] = &[];
        Stack { cards, floating, details }
    }

    /// A stack of `cards` with the held `floating` cards above it.
    pub fn with_floating_cards(cards: &'a [Card], floating: &'a [Card], details: StackDetails) -> (s:
        Stack<'a>)
        ensures
            s.cards@ == cards@,
            s.floating@ == floating@,
            s.details == details,
    {
        Stack { cards, floating, details }
    }

    /// Index of the first visible card of the pile.
    pub fn visible_index(&self) -> (i: usize)
        ensures
            i == spec_index_of_last_n(self.details.visible_len, self.cards@),
    {
        index_of_last_n(self.details.visible_len, self.cards)
    }

    /// Index of the first selected card of the pile, unless the whole stack is selected or
    /// nothing is.
    pub fn selection_index(&self) -> (i: Option<usize>)
        ensures
            i == match self.details.selection {
                Some(StackSelection::Cards(len)) => Some(spec_index_of_last_n(len, self.cards@)),
                Some(StackSelection::Stack(len)) => Some(spec_index_of_last_n(len, self.cards@)),
                _ => None::<usize>,
            },
    {
        match self.details.selection {
            Some(StackSelection::Cards(len)) => Some(index_of_last_n(len, self.cards)),
            Some(StackSelection::Stack(len)) => Some(index_of_last_n(len, self.cards)),
            _ => None,
        }
    }
}

} // verus!
