//! The stock: the face-down pile that cards are drawn from.

use vstd::prelude::*;

use crate::model::{
    card::Card,
    settings::GameSettings,
    stack::{Orientation, Stack, StackDetails, StackSelection},
};
use crate::utils::{split_off_bounded, spec_bounded_sub};

use super::{Action, AreaId, Error, ErrorKind, Held, MoveResult};

verus! {

/// Selection of the stock. The stock is selected as a whole; its cards cannot be held.
#[derive(Copy, Clone, Debug, PartialEq, Eq, Structural)]
pub struct Selection;

/// The stock area. `selection` is `None` while the area is not selected.
#[derive(Debug)]
pub struct Stock {
    /// The cards, bottom first; all face down.
    pub cards: Vec<Card>,
    /// How many cards one activation draws.
    pub draw_from_stock_len: usize,
    /// The selection state.
    pub selection: Option<Selection>,
}

impl Stock {
    pub open spec fn spec_id(&self) -> AreaId {
        AreaId::Stock
    }

    /// Why the stock refuses cards from `source`, or `None` if it accepts them: it takes back
    /// its own cards and cards from the talon, nothing else.
    pub open spec fn spec_rejection(&self, source: AreaId, cards: Seq<Card>) -> Option<ErrorKind> {
        if source == AreaId::Stock || source == AreaId::Talon {
            None
        } else {
            Some(ErrorKind::NotSupported)
        }
    }

    /// A new, unselected stock.
    pub fn create(cards: Vec<Card>, settings: &GameSettings) -> (s: Stock)
        ensures
            s.cards@ == cards@,
            s.draw_from_stock_len == settings.draw_from_stock_len,
            s.selection is None,
    {
        Stock { cards, draw_from_stock_len: settings.draw_from_stock_len, selection: None }
    }

    pub fn id(&self) -> (id: AreaId)
        ensures
            id == self.spec_id(),
    {
        AreaId::Stock
    }

    pub fn is_selected(&self) -> (b: bool)
        ensures
            b == self.selection is Some,
    {
        self.selection.is_some()
    }

    /// Cards of the stock are never held.
    pub fn is_held(&self) -> (b: bool)
        ensures
            !b,
    {
        false
    }

    /// Cards of the stock are never held.
    pub fn held_from(&self) -> (source: Option<AreaId>)
        ensures
            source is None,
    {
        None
    }

    /// Checks whether the stock accepts cards from the source of `held`.
    pub fn validate_cards(&self, held: &Held) -> (r: Result<(), Error>)
        ensures
            match self.spec_rejection(held.source, held.cards@) {
                None => r is Ok,
                Some(kind) => r matches Err(e) && e.kind() == kind,
            },
    {
        if held.source == AreaId::Stock || held.source == AreaId::Talon {
            Ok(())
        } else {
            Err(Error::new(ErrorKind::NotSupported, "Cannot place cards from this area"))
        }
    }

    /// Places the held cards on top of the stock if it accepts them; otherwise hands them back.
    pub fn give_cards(&mut self, held: Held) -> (r: MoveResult<(), Held>)
        ensures
            final(self).draw_from_stock_len == old(self).draw_from_stock_len,
            final(self).selection == old(self).selection,
            match old(self).spec_rejection(held.source, held.cards@) {
                None => r is Moved && final(self).cards@ == old(self).cards@ + held.cards@,
                Some(kind) => r matches MoveResult::Unmoved(back, e) && e.kind() == kind
                    && back.source == held.source && back.cards@ == held.cards@
                    && final(self).cards@ == old(self).cards@,
            },
    {
        match self.validate_cards(&held) {
            Ok(_) => {
                let mut held = held;
                self.cards.append(&mut held.cards);
                MoveResult::Moved(())
            },
            Err(error) => MoveResult::Unmoved(held, error),
        }
    }

    /// Takes the top `len` cards (all when fewer).
    pub fn take_cards(&mut self, len: usize) -> (held: Held)
        ensures
            final(self).draw_from_stock_len == old(self).draw_from_stock_len,
            final(self).selection == old(self).selection,
            held.source == AreaId::Stock,
            old(self).cards@ == final(self).cards@ + held.cards@,
            final(self).cards@.len() == spec_bounded_sub(old(self).cards@.len() as usize, len),
    {
        let cards = split_off_bounded(&mut self.cards, len);
        Held { source: AreaId::Stock, cards }
    }

    /// Takes all cards.
    pub fn take_all_cards(&mut self) -> (held: Held)
        ensures
            final(self).draw_from_stock_len == old(self).draw_from_stock_len,
            final(self).selection == old(self).selection,
            held.source == AreaId::Stock,
            held.cards@ == old(self).cards@,
            final(self).cards@.len() == 0,
    {
        let len = self.cards.len();
        self.take_cards(len)
    }

    /// The top card, if any.
    pub fn peek_top_card(&self) -> (card: Option<&Card>)
        ensures
            self.cards@.len() == 0 ==> card is None,
            self.cards@.len() > 0 ==> card == Some(&self.cards@.last()),
    {
        self.cards.last()
    }

    /// The layout of the area as a stack.
    pub open spec fn spec_stack_details(&self) -> StackDetails {
        StackDetails {
            orientation: Orientation::Horizontal,
            len: self.cards@.len() as usize,
            face_up_len: 0,
            visible_len: 2,
            spread_len: 1,
            selection: match self.selection {
                Some(_) => Some(StackSelection { len: 1, held: false }),
                None => None::<StackSelection>,
            },
        }
    }

    /// The layout of the stock: spread horizontally, all face down, the top two visible.
    pub fn as_stack(&self) -> (stack: Stack<'_>)
        ensures
            stack.cards@ == self.cards@,
            stack.details == self.spec_stack_details(),
    {
        let selection = match self.selection {
            Some(_) => Some(StackSelection { len: 1, held: false }),
            None => None,
        };
        Stack {
            cards: self.cards.as_slice(),
            details: StackDetails {
                orientation: Orientation::Horizontal,
                len: self.cards.len(),
                face_up_len: 0,
                visible_len: 2,
                spread_len: 1,
                selection,
            },
        }
    }

    /// Selects the stock; this always succeeds, even when it is empty.
    pub fn select(&mut self) -> (r: Result<(), Error>)
        requires
            old(self).selection is None,
        ensures
            r is Ok,
            final(self).cards@ == old(self).cards@,
            final(self).draw_from_stock_len == old(self).draw_from_stock_len,
            final(self).selection == Some(Selection),
    {
        self.selection = Some(Selection);
        Ok(())
    }

    /// Held cards cannot be moved onto the stock by the player: they are handed back.
    pub fn select_with_held(&mut self, held: Held) -> (r: MoveResult<(), Held>)
        requires
            old(self).selection is None,
        ensures
            r matches MoveResult::Unmoved(back, e) && e.kind() == ErrorKind::NotSupported
                && back.source == held.source && back.cards@ == held.cards@,
            final(self).cards@ == old(self).cards@,
            final(self).draw_from_stock_len == old(self).draw_from_stock_len,
            final(self).selection is None,
    {
        MoveResult::Unmoved(
            held,
            Error::new(ErrorKind::NotSupported, "Cards in this area cannot be held"),
        )
    }

    /// Deselects the stock; nothing is ever held.
    pub fn deselect(&mut self) -> (held: Option<Held>)
        requires
            old(self).selection is Some,
        ensures
            held is None,
            final(self).cards@ == old(self).cards@,
            final(self).draw_from_stock_len == old(self).draw_from_stock_len,
            final(self).selection is None,
    {
        self.selection = None;
        None
    }

    /// Asks to draw cards onto the talon, or to restock from the talon when the stock is empty.
    pub fn activate(&mut self) -> (r: Result<Option<Action>, Error>)
        requires
            old(self).selection is Some,
        ensures
            final(self).cards@ == old(self).cards@,
            final(self).draw_from_stock_len == old(self).draw_from_stock_len,
            final(self).selection == old(self).selection,
            old(self).cards@.len() == 0 ==> r == Ok::<Option<Action>, Error>(
                Some(Action::Restock),
            ),
            old(self).cards@.len() > 0 ==> r == Ok::<Option<Action>, Error>(
                Some(Action::Draw(old(self).draw_from_stock_len)),
            ),
    {
        if self.cards.len() == 0 {
            Ok(Some(Action::Restock))
        } else {
            Ok(Some(Action::Draw(self.draw_from_stock_len)))
        }
    }

    /// Cards of the stock cannot be held.
    pub fn pick_up(&mut self) -> (r: Result<(), Error>)
        ensures
            r matches Err(e) && e.kind() == ErrorKind::NotSupported,
            final(self).cards@ == old(self).cards@,
            final(self).draw_from_stock_len == old(self).draw_from_stock_len,
            final(self).selection == old(self).selection,
    {
        Err(Error::new(ErrorKind::NotSupported, "Cards in this area cannot be held"))
    }

    /// Cards of the stock cannot be held.
    pub fn put_down(&mut self) -> (r: Result<(), Error>)
        ensures
            r matches Err(e) && e.kind() == ErrorKind::NotSupported,
            final(self).cards@ == old(self).cards@,
            final(self).draw_from_stock_len == old(self).draw_from_stock_len,
            final(self).selection == old(self).selection,
    {
        Err(Error::new(ErrorKind::NotSupported, "Cards in this area cannot be held"))
    }

    /// The selection of the stock cannot grow.
    pub fn select_more(&mut self) -> (r: Result<(), Error>)
        ensures
            r matches Err(e) && e.kind() == ErrorKind::NotSupported,
            final(self).cards@ == old(self).cards@,
            final(self).draw_from_stock_len == old(self).draw_from_stock_len,
            final(self).selection == old(self).selection,
    {
        Err(Error::new(ErrorKind::NotSupported, "Cards in this area cannot be held"))
    }

    /// The selection of the stock cannot shrink.
    pub fn select_less(&mut self) -> (r: Result<(), Error>)
        ensures
            r matches Err(e) && e.kind() == ErrorKind::NotSupported,
            final(self).cards@ == old(self).cards@,
            final(self).draw_from_stock_len == old(self).draw_from_stock_len,
            final(self).selection == old(self).selection,
    {
        Err(Error::new(ErrorKind::NotSupported, "Cards in this area cannot be held"))
    }
}

} // verus!
