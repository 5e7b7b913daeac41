//! The talon (waste): the face-up pile that drawn cards land on.

use vstd::prelude::*;

use crate::model::{
    card::Card,
    stack::{Orientation, Stack, StackDetails, StackSelection},
};
use crate::utils::{bounded_sub, split_off_bounded, spec_bounded_sub};

use super::{Action, AreaId, Error, ErrorKind, Held, MoveResult};

verus! {

/// Selection of the talon. Only the top card can be selected, and it is either held or not.
#[derive(Copy, Clone, Debug, PartialEq, Eq, Structural)]
pub struct Selection {
    pub held_from: Option<AreaId>,
}

/// The talon area. The top `fanned_len` cards are fanned out. `selection` is `None` while the
/// area is not selected.
#[derive(Debug)]
pub struct Talon {
    /// The cards, bottom first; all face up.
    pub cards: Vec<Card>,
    /// How many of the top cards are fanned out.
    pub fanned_len: usize,
    /// The selection state.
    pub selection: Option<Selection>,
}

impl Talon {
    /// No more cards are fanned out than there are.
    pub open spec fn wf(&self) -> bool {
        self.fanned_len <= self.cards@.len()
    }

    pub open spec fn spec_id(&self) -> AreaId {
        AreaId::Talon
    }

    /// Why the talon refuses cards from `source`, or `None` if it accepts them: it takes back
    /// its own cards and cards from the stock, nothing else.
    pub open spec fn spec_rejection(&self, source: AreaId, cards: Seq<Card>) -> Option<ErrorKind> {
        if source == AreaId::Talon || source == AreaId::Stock {
            None
        } else {
            Some(ErrorKind::NotSupported)
        }
    }

    pub open spec fn spec_is_held(&self) -> bool {
        self.selection matches Some(s) && s.held_from is Some
    }

    pub open spec fn spec_held_from(&self) -> Option<AreaId> {
        match self.selection {
            Some(s) => s.held_from,
            None => None,
        }
    }

    pub open spec fn spec_take_source(&self) -> AreaId {
        match self.spec_held_from() {
            Some(source) => source,
            None => AreaId::Talon,
        }
    }

    /// The selection once cards are given or taken: a selected talon stops holding.
    pub open spec fn spec_reset_selection(&self) -> Option<Selection> {
        match self.selection {
            Some(_) => Some(Selection { held_from: None }),
            None => None,
        }
    }

    /// The fan after `n` cards from `source` are placed: cards drawn from the stock replace
    /// the fan, anything else widens it.
    pub open spec fn spec_fan_after_give(&self, source: AreaId, n: nat) -> int {
        if source == AreaId::Stock {
            n as int
        } else {
            self.fanned_len + n
        }
    }

    /// A new, unselected talon with the top `fanned_len` cards fanned out.
    pub fn create(cards: Vec<Card>, fanned_len: usize) -> (t: Talon)
        requires
            fanned_len <= cards@.len(),
        ensures
            t.wf(),
            t.cards@ == cards@,
            t.fanned_len == fanned_len,
            t.selection is None,
    {
        Talon { cards, fanned_len, selection: None }
    }

    pub fn id(&self) -> (id: AreaId)
        ensures
            id == self.spec_id(),
    {
        AreaId::Talon
    }

    pub fn is_selected(&self) -> (b: bool)
        ensures
            b == self.selection is Some,
    {
        self.selection.is_some()
    }

    pub fn is_held(&self) -> (b: bool)
        ensures
            b == self.spec_is_held(),
    {
        match self.selection {
            Some(selection) => selection.held_from.is_some(),
            None => false,
        }
    }

    pub fn held_from(&self) -> (source: Option<AreaId>)
        ensures
            source == self.spec_held_from(),
    {
        match self.selection {
            Some(selection) => selection.held_from,
            None => None,
        }
    }

    /// Checks whether the talon accepts cards from the source of `held`.
    pub fn validate_cards(&self, held: &Held) -> (r: Result<(), Error>)
        ensures
            match self.spec_rejection(held.source, held.cards@) {
                None => r is Ok,
                Some(kind) => r matches Err(e) && e.kind() == kind,
            },
    {
        if held.source == AreaId::Talon || held.source == AreaId::Stock {
            Ok(())
        } else {
            Err(Error::new(ErrorKind::NotSupported, "Cannot place cards from this area"))
        }
    }

    /// Places the held cards on top of the talon if it accepts them; otherwise hands them back.
    /// A selected talon stops holding in either case.
    pub fn give_cards(&mut self, held: Held) -> (r: MoveResult<(), Held>)
        requires
            old(self).wf(),
        ensures
            final(self).wf(),
            final(self).selection == old(self).spec_reset_selection(),
            match old(self).spec_rejection(held.source, held.cards@) {
                None => r is Moved && final(self).cards@ == old(self).cards@ + held.cards@
                    && final(self).fanned_len == old(self).spec_fan_after_give(
                    held.source,
                    held.cards@.len(),
                ),
                Some(kind) => r matches MoveResult::Unmoved(back, e) && e.kind() == kind
                    && back.source == held.source && back.cards@ == held.cards@
                    && final(self).cards@ == old(self).cards@
                    && final(self).fanned_len == old(self).fanned_len,
            },
    {
        if self.selection.is_some() {
            self.selection = Some(Selection { held_from: None });
        }
        match self.validate_cards(&held) {
            Ok(_) => {
                let mut held = held;
                let len = held.cards.len();
                let from_stock = held.source == AreaId::Stock;
                self.cards.append(&mut held.cards);
                let new_len = self.cards.len();
                if from_stock {
                    self.fanned_len = len;
                } else {
                    assert(self.fanned_len + len <= new_len);
                    self.fanned_len = self.fanned_len + len;
                }
                MoveResult::Moved(())
            },
            Err(error) => MoveResult::Unmoved(held, error),
        }
    }

    /// Takes the top `len` cards (all when fewer), marked as coming from `source`; the fan
    /// shrinks accordingly.
    fn take_cards_from(&mut self, len: usize, source: AreaId) -> (held: Held)
        requires
            old(self).wf(),
        ensures
            final(self).wf(),
            final(self).selection == old(self).selection,
            held.source == source,
            old(self).cards@ == final(self).cards@ + held.cards@,
            final(self).cards@.len() == spec_bounded_sub(old(self).cards@.len() as usize, len),
            final(self).fanned_len == spec_bounded_sub(
                old(self).fanned_len,
                held.cards@.len() as usize,
            ),
    {
        let cards = split_off_bounded(&mut self.cards, len);
        self.fanned_len = bounded_sub(self.fanned_len, cards.len());
        Held { source, cards }
    }

    /// Takes the top `len` cards (all when fewer). A selected talon stops holding.
    pub fn take_cards(&mut self, len: usize) -> (held: Held)
        requires
            old(self).wf(),
        ensures
            final(self).wf(),
            final(self).selection == old(self).spec_reset_selection(),
            held.source == old(self).spec_take_source(),
            old(self).cards@ == final(self).cards@ + held.cards@,
            final(self).cards@.len() == spec_bounded_sub(old(self).cards@.len() as usize, len),
            final(self).fanned_len == spec_bounded_sub(
                old(self).fanned_len,
                held.cards@.len() as usize,
            ),
    {
        let source = match self.held_from() {
            Some(source) => source,
            None => AreaId::Talon,
        };
        if self.selection.is_some() {
            self.selection = Some(Selection { held_from: None });
        }
        self.take_cards_from(len, source)
    }

    /// Takes all cards. A selected talon stops holding.
    pub fn take_all_cards(&mut self) -> (held: Held)
        requires
            old(self).wf(),
        ensures
            final(self).wf(),
            final(self).selection == old(self).spec_reset_selection(),
            held.source == old(self).spec_take_source(),
            held.cards@ == old(self).cards@,
            final(self).cards@.len() == 0,
            final(self).fanned_len == 0,
    {
        let len = self.cards.len();
        self.take_cards(len)
    }

    /// The card reported as the top card: the first card of the pile, if any.
    pub fn peek_top_card(&self) -> (card: Option<&Card>)
        ensures
            self.cards@.len() == 0 ==> card is None,
            self.cards@.len() > 0 ==> card == Some(&self.cards@[0]),
    {
        self.cards.first()
    }

    /// The layout of the area as a stack.
    pub open spec fn spec_stack_details(&self) -> StackDetails {
        StackDetails {
            orientation: Orientation::Horizontal,
            len: self.cards@.len() as usize,
            face_up_len: self.cards@.len() as usize,
            visible_len: if self.fanned_len < usize::MAX {
                (self.fanned_len + 1) as usize
            } else {
                usize::MAX
            },
            spread_len: self.fanned_len,
            selection: match self.selection {
                Some(s) => Some(StackSelection { len: 1, held: s.held_from is Some }),
                None => None::<StackSelection>,
            },
        }
    }

    /// The layout of the talon: spread horizontally, all face up, the fanned cards spread and
    /// one more card visible beneath them.
    pub fn as_stack(&self) -> (stack: Stack<'_>)
        ensures
            stack.cards@ == self.cards@,
            stack.details == self.spec_stack_details(),
    {
        let cards_len = self.cards.len();
        let selection = match self.selection {
            Some(s) => Some(StackSelection { len: 1, held: s.held_from.is_some() }),
            None => None,
        };
        let visible_len = if self.fanned_len < usize::MAX {
            self.fanned_len + 1
        } else {
            usize::MAX
        };
        Stack {
            cards: self.cards.as_slice(),
            details: StackDetails {
                orientation: Orientation::Horizontal,
                len: cards_len,
                face_up_len: cards_len,
                visible_len,
                spread_len: self.fanned_len,
                selection,
            },
        }
    }

    /// Selects the top card; an empty talon cannot be selected.
    pub fn select(&mut self) -> (r: Result<(), Error>)
        requires
            old(self).wf(),
            old(self).selection is None,
        ensures
            final(self).wf(),
            final(self).cards@ == old(self).cards@,
            final(self).fanned_len == old(self).fanned_len,
            old(self).cards@.len() > 0 ==> r is Ok && final(self).selection == Some(
                Selection { held_from: None },
            ),
            old(self).cards@.len() == 0 ==> (r matches Err(e) && e.kind()
                == ErrorKind::NothingToSelect) && final(self).selection is None,
    {
        if self.cards.len() > 0 {
            self.selection = Some(Selection { held_from: None });
            Ok(())
        } else {
            Err(Error::new(ErrorKind::NothingToSelect, "Empty area"))
        }
    }

    /// Selects the talon while placing the held cards on it; it then holds them. If it refuses
    /// them, it stays unselected and hands them back.
    pub fn select_with_held(&mut self, held: Held) -> (r: MoveResult<(), Held>)
        requires
            old(self).wf(),
            old(self).selection is None,
        ensures
            final(self).wf(),
            match old(self).spec_rejection(held.source, held.cards@) {
                None => r is Moved && final(self).cards@ == old(self).cards@ + held.cards@
                    && final(self).fanned_len == old(self).spec_fan_after_give(
                    held.source,
                    held.cards@.len(),
                ) && final(self).selection == Some(Selection { held_from: Some(held.source) }),
                Some(kind) => r matches MoveResult::Unmoved(back, e) && e.kind() == kind
                    && back.source == held.source && back.cards@ == held.cards@
                    && final(self).cards@ == old(self).cards@
                    && final(self).fanned_len == old(self).fanned_len
                    && final(self).selection is None,
            },
    {
        let source = held.source;
        match self.give_cards(held) {
            MoveResult::Moved(()) => {
                self.selection = Some(Selection { held_from: Some(source) });
                MoveResult::Moved(())
            },
            MoveResult::Unmoved(held, error) => MoveResult::Unmoved(held, error),
        }
    }

    /// Deselects the talon. If it was holding its top card, that card is taken off and
    /// returned, marked with where it came from.
    pub fn deselect(&mut self) -> (held: Option<Held>)
        requires
            old(self).wf(),
            old(self).selection is Some,
        ensures
            final(self).wf(),
            final(self).selection is None,
            match old(self).spec_held_from() {
                None => held is None && final(self).cards@ == old(self).cards@
                    && final(self).fanned_len == old(self).fanned_len,
                Some(source) => held matches Some(h) && h.source == source
                    && old(self).cards@ == final(self).cards@ + h.cards@
                    && final(self).cards@.len() == spec_bounded_sub(
                        old(self).cards@.len() as usize,
                        1,
                    ) && final(self).fanned_len == spec_bounded_sub(
                        old(self).fanned_len,
                        h.cards@.len() as usize,
                    ),
            },
    {
        let held = match self.held_from() {
            Some(source) => Some(self.take_cards_from(1, source)),
            None => None,
        };
        self.selection = None;
        held
    }

    /// Puts the held card down if one is held, otherwise picks the top card up.
    pub fn activate(&mut self) -> (r: Result<Option<Action>, Error>)
        requires
            old(self).wf(),
            old(self).selection is Some,
        ensures
            r == Ok::<Option<Action>, Error>(None),
            final(self).wf(),
            final(self).cards@ == old(self).cards@,
            final(self).fanned_len == old(self).fanned_len,
            old(self).spec_is_held() ==> final(self).selection == Some(
                Selection { held_from: None },
            ),
            !old(self).spec_is_held() ==> final(self).selection == Some(
                Selection { held_from: Some(AreaId::Talon) },
            ),
    {
        if self.is_held() {
            let _ = self.put_down();
        } else {
            let _ = self.pick_up();
        }
        Ok(None)
    }

    /// Picks up the top card.
    pub fn pick_up(&mut self) -> (r: Result<(), Error>)
        requires
            old(self).selection is Some,
        ensures
            r is Ok,
            final(self).cards@ == old(self).cards@,
            final(self).fanned_len == old(self).fanned_len,
            final(self).selection == Some(Selection { held_from: Some(AreaId::Talon) }),
    {
        self.selection = Some(Selection { held_from: Some(AreaId::Talon) });
        Ok(())
    }

    /// Stops holding.
    pub fn put_down(&mut self) -> (r: Result<(), Error>)
        requires
            old(self).selection is Some,
        ensures
            r is Ok,
            final(self).cards@ == old(self).cards@,
            final(self).fanned_len == old(self).fanned_len,
            final(self).selection == Some(Selection { held_from: None }),
    {
        self.selection = Some(Selection { held_from: None });
        Ok(())
    }

    /// The selection of the talon cannot grow.
    pub fn select_more(&mut self) -> (r: Result<(), Error>)
        ensures
            r matches Err(e) && e.kind() == ErrorKind::NotSupported,
            final(self).cards@ == old(self).cards@,
            final(self).fanned_len == old(self).fanned_len,
            final(self).selection == old(self).selection,
    {
        Err(Error::new(ErrorKind::NotSupported, "Selection cannot be changed"))
    }

    /// The selection of the talon cannot shrink.
    pub fn select_less(&mut self) -> (r: Result<(), Error>)
        ensures
            r matches Err(e) && e.kind() == ErrorKind::NotSupported,
            final(self).cards@ == old(self).cards@,
            final(self).fanned_len == old(self).fanned_len,
            final(self).selection == old(self).selection,
    {
        Err(Error::new(ErrorKind::NotSupported, "Selection cannot be changed"))
    }
}

} // verus!
