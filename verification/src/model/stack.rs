//! A read-only description of how a pile of cards is laid out and selected.

use vstd::prelude::*;

use crate::utils::{bounded_sub, spec_bounded_sub};

use super::card::Card;

verus! {

/// Direction in which the cards of a stack are spread.
#[derive(Copy, Clone, Debug, PartialEq, Eq, Structural)]
pub enum Orientation {
    Horizontal,
    Vertical,
}

/// The selected part of a stack: the top `len` cards, held (picked up) or not.
#[derive(Copy, Clone, Debug, PartialEq, Eq, Structural)]
pub struct StackSelection {
    pub len: usize,
    pub held: bool,
}

/// Layout details of a stack. All lengths count cards from the top of the stack.
#[derive(Copy, Clone, Debug, PartialEq, Eq, Structural)]
pub struct StackDetails {
    pub orientation: Orientation,
    pub len: usize,
    pub face_up_len: usize,
    pub visible_len: usize,
    pub spread_len: usize,
    pub selection: Option<StackSelection>,
}

impl StackDetails {
    /// Index of the first face-up card.
    pub fn face_up_index(&self) -> (i: usize)
        ensures
            i == spec_bounded_sub(self.len, self.face_up_len),
    {
        bounded_sub(self.len, self.face_up_len)
    }

    /// Index of the first visible card.
    pub fn visible_index(&self) -> (i: usize)
        ensures
            i == spec_bounded_sub(self.len, self.visible_len),
    {
        bounded_sub(self.len, self.visible_len)
    }

    /// Index of the first spread card.
    pub fn spread_index(&self) -> (i: usize)
        ensures
            i == spec_bounded_sub(self.len, self.spread_len),
    {
        bounded_sub(self.len, self.spread_len)
    }

    /// Number of visible cards that are not spread.
    pub fn unspread_len(&self) -> (n: usize)
        ensures
            n == spec_bounded_sub(self.visible_len, self.spread_len),
    {
        bounded_sub(self.visible_len, self.spread_len)
    }

    /// Index of the first selected card, if part of the stack is selected.
    pub fn selection_index(&self) -> (i: Option<usize>)
        ensures
            i == match self.selection {
                Some(selection) => Some(spec_bounded_sub(self.len, selection.len)),
                None => None::<usize>,
            },
    {
        match self.selection {
            Some(selection) => Some(bounded_sub(self.len, selection.len)),
            None => None,
        }
    }

    /// Whether the selected cards are held.
    pub fn held(&self) -> (b: bool)
        ensures
            b == (self.selection matches Some(selection) && selection.held),
    {
        match self.selection {
            Some(selection) => selection.held,
            None => false,
        }
    }
}

/// The cards of an area together with their layout details.
#[derive(Debug)]
pub struct Stack<'a> {
    pub cards: &'a [Card],
    pub details: StackDetails,
}

impl<'a> Stack<'a> {
    /// The cards of the stack, bottom first.
    pub fn cards(&self) -> (cards: &'a [Card])
        ensures
            cards@ == self.cards@,
    {
        self.cards
    }
}

} // verus!
