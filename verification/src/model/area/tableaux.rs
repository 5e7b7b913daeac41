//! A tableaux: one of the piles on which cards are built down in alternating colors.

use vstd::prelude::*;

use crate::model::{
    card::{Card, Rank, Suit},
    stack::{Orientation, Stack, StackDetails, StackSelection},
};
use crate::utils::{split_off_bounded, spec_bounded_sub};

use super::{Action, AreaId, Error, ErrorKind, Held, MoveResult};

verus! {

/// Selection of a tableaux: the top `len` cards, held (with their source) or not.
#[derive(Copy, Clone, Debug, PartialEq, Eq, Structural)]
pub struct Selection {
    pub held_from: Option<AreaId>,
    pub len: usize,
}

/// A tableaux area. The top `revealed_len` cards are face up. `selection` is `None` while the
/// area is not selected.
#[derive(Debug)]
pub struct Tableaux {
    pub index: u8,
    /// The cards, bottom first.
    pub cards: Vec<Card>,
    /// How many of the top cards are face up.
    pub revealed_len: usize,
    /// The selection state.
    pub selection: Option<Selection>,
}

pub open spec fn spec_min(a: int, b: int) -> int {
    if a <= b { a } else { b }
}

impl Tableaux {
    /// The tableaux is well formed: no more cards are face up than there are, a selection spans
    /// no more than the face-up cards (or the single top card when none is face up), and held
    /// cards are all face up.
    pub open spec fn wf(&self) -> bool {
        &&& self.revealed_len <= self.cards@.len()
        &&& self.selection matches Some(s) ==> {
            &&& s.len <= self.revealed_len || s.len <= 1
            &&& s.held_from is Some ==> s.len <= self.revealed_len
        }
    }

    pub open spec fn spec_id(&self) -> AreaId {
        AreaId::Tableaux(self.index)
    }

    /// Why the tableaux refuses `cards` coming from `source`, or `None` if it accepts them: its
    /// own cards always; otherwise the first card must be a King on an empty tableaux, or one
    /// rank below the face-up top card and of the other color.
    pub open spec fn spec_rejection(&self, source: AreaId, cards: Seq<Card>) -> Option<ErrorKind> {
        if source == self.spec_id() {
            None
        } else if cards.len() > 0 {
            let card = cards[0];
            if self.cards@.len() > 0 {
                let top = self.cards@.last();
                if self.revealed_len > 0 && card.rank.spec_is_followed_by(top.rank)
                    && card.spec_color() != top.spec_color() {
                    None
                } else {
                    Some(ErrorKind::InvalidCard)
                }
            } else if card.rank == Rank::King {
                None
            } else {
                Some(ErrorKind::InvalidCard)
            }
        } else {
            None
        }
    }

    pub open spec fn spec_is_held(&self) -> bool {
        self.selection matches Some(s) && s.held_from is Some
    }

    pub open spec fn spec_held_from(&self) -> Option<AreaId> {
        match self.selection {
            Some(s) => s.held_from,
            None => None,
        }
    }

    pub open spec fn spec_take_source(&self) -> AreaId {
        match self.spec_held_from() {
            Some(source) => source,
            None => self.spec_id(),
        }
    }

    /// The selection after cards are given to or taken from the tableaux: one card, not held.
    pub open spec fn spec_reset_selection(&self) -> Option<Selection> {
        match self.selection {
            Some(_) => Some(Selection { held_from: None, len: 1 }),
            None => None,
        }
    }

    /// A new, unselected tableaux whose top `revealed_len` cards are face up.
    pub fn create(index: u8, revealed_len: usize, cards: Vec<Card>) -> (t: Tableaux)
        requires
            revealed_len <= cards@.len(),
        ensures
            t.wf(),
            t.index == index,
            t.revealed_len == revealed_len,
            t.cards@ == cards@,
            t.selection is None,
    {
        Tableaux { index, cards, revealed_len, selection: None }
    }

    pub fn id(&self) -> (id: AreaId)
        ensures
            id == self.spec_id(),
    {
        AreaId::Tableaux(self.index)
    }

    pub fn is_selected(&self) -> (b: bool)
        ensures
            b == self.selection is Some,
    {
        self.selection.is_some()
    }

    pub fn is_held(&self) -> (b: bool)
        ensures
            b == self.spec_is_held(),
    {
        match self.selection {
            Some(selection) => selection.held_from.is_some(),
            None => false,
        }
    }

    pub fn held_from(&self) -> (source: Option<AreaId>)
        ensures
            source == self.spec_held_from(),
    {
        match self.selection {
            Some(selection) => selection.held_from,
            None => None,
        }
    }

    /// Checks whether the tableaux accepts the held cards.
    pub fn accepts_cards(&self, held: &Held) -> (r: Result<(), Error>)
        ensures
            match self.spec_rejection(held.source, held.cards@) {
                None => r is Ok,
                Some(kind) => r matches Err(e) && e.kind() == kind,
            },
    {
        if held.source == self.id() {
            Ok(())
        } else if held.cards.len() > 0 {
            let card = held.cards[0];
            if self.cards.len() > 0 {
                let top = self.cards[self.cards.len() - 1];
                if self.revealed_len > 0 && card.rank.is_followed_by(top.rank) && card.color()
                    != top.color() {
                    Ok(())
                } else {
                    Err(Error::new(ErrorKind::InvalidCard, "Card does not follow"))
                }
            } else if card.rank == Rank::King {
                Ok(())
            } else {
                Err(Error::new(ErrorKind::InvalidCard, "Card does not follow: top: empty"))
            }
        } else {
            Ok(())
        }
    }

    /// Places the held cards on top, face up, if the tableaux accepts them; otherwise hands
    /// them back. A selected tableaux goes back to selecting its single top card, not held.
    pub fn give_cards(&mut self, held: Held) -> (r: MoveResult<(), Held>)
        requires
            old(self).wf(),
        ensures
            final(self).wf(),
            final(self).index == old(self).index,
            final(self).selection == old(self).spec_reset_selection(),
            match old(self).spec_rejection(held.source, held.cards@) {
                None => r is Moved && final(self).cards@ == old(self).cards@ + held.cards@
                    && final(self).revealed_len == old(self).revealed_len + held.cards@.len(),
                Some(kind) => r matches MoveResult::Unmoved(back, e) && e.kind() == kind
                    && back.source == held.source && back.cards@ == held.cards@
                    && final(self).cards@ == old(self).cards@
                    && final(self).revealed_len == old(self).revealed_len,
            },
    {
        if self.selection.is_some() {
            self.selection = Some(Selection { held_from: None, len: 1 });
        }
        match self.accepts_cards(&held) {
            Ok(_) => {
                let mut held = held;
                let len = held.cards.len();
                self.cards.append(&mut held.cards);
                let new_len = self.cards.len();
                assert(self.revealed_len + len <= new_len);
                self.revealed_len = self.revealed_len + len;
                MoveResult::Moved(())
            },
            Err(error) => MoveResult::Unmoved(held, error),
        }
    }

    /// Takes the top `len` face-up cards (all when fewer), marked as coming from `source`.
    fn take_cards_from(&mut self, len: usize, source: AreaId) -> (held: Held)
        requires
            spec_min(len as int, old(self).cards@.len() as int) <= old(self).revealed_len,
            old(self).revealed_len <= old(self).cards@.len(),
        ensures
            final(self).index == old(self).index,
            final(self).selection == old(self).selection,
            held.source == source,
            old(self).cards@ == final(self).cards@ + held.cards@,
            final(self).cards@.len() == spec_bounded_sub(old(self).cards@.len() as usize, len),
            held.cards@.len() == spec_min(len as int, old(self).cards@.len() as int),
            final(self).revealed_len == old(self).revealed_len - held.cards@.len(),
    {
        let old_len = self.cards.len();
        let cards = split_off_bounded(&mut self.cards, len);
        assert(cards@.len() == spec_min(len as int, old_len as int));
        self.revealed_len = self.revealed_len - cards.len();
        Held { source, cards }
    }

    /// Takes the top `len` cards (all when fewer), which must be face up. A selected tableaux
    /// goes back to selecting its single top card, not held.
    pub fn take_cards(&mut self, len: usize) -> (held: Held)
        requires
            old(self).wf(),
            spec_min(len as int, old(self).cards@.len() as int) <= old(self).revealed_len,
        ensures
            final(self).wf(),
            final(self).index == old(self).index,
            final(self).selection == old(self).spec_reset_selection(),
            held.source == old(self).spec_take_source(),
            old(self).cards@ == final(self).cards@ + held.cards@,
            final(self).cards@.len() == spec_bounded_sub(old(self).cards@.len() as usize, len),
            final(self).revealed_len == old(self).revealed_len - held.cards@.len(),
    {
        let source = match self.held_from() {
            Some(source) => source,
            None => self.id(),
        };
        if self.selection.is_some() {
            self.selection = Some(Selection { held_from: None, len: 1 });
        }
        self.take_cards_from(len, source)
    }

    /// Takes all cards, which must all be face up.
    pub fn take_all_cards(&mut self) -> (held: Held)
        requires
            old(self).wf(),
            old(self).revealed_len == old(self).cards@.len(),
        ensures
            final(self).wf(),
            final(self).index == old(self).index,
            final(self).selection == old(self).spec_reset_selection(),
            held.source == old(self).spec_take_source(),
            held.cards@ == old(self).cards@,
            final(self).cards@.len() == 0,
            final(self).revealed_len == 0,
    {
        let len = self.cards.len();
        self.take_cards(len)
    }

    /// The card reported as the top card: the first card of the pile, if any.
    pub fn peek_top_card(&self) -> (card: Option<&Card>)
        ensures
            self.cards@.len() == 0 ==> card is None,
            self.cards@.len() > 0 ==> card == Some(&self.cards@[0]),
    {
        self.cards.first()
    }

    /// The layout of the area as a stack.
    pub open spec fn spec_stack_details(&self) -> StackDetails {
        StackDetails {
            orientation: Orientation::Vertical,
            len: self.cards@.len() as usize,
            face_up_len: self.revealed_len,
            visible_len: self.cards@.len() as usize,
            spread_len: self.revealed_len,
            selection: match self.selection {
                Some(s) => Some(StackSelection { len: s.len, held: s.held_from is Some }),
                None => None::<StackSelection>,
            },
        }
    }

    /// The layout of the tableaux: spread vertically, all visible, the revealed cards face up
    /// and spread.
    pub fn as_stack(&self) -> (stack: Stack<'_>)
        ensures
            stack.cards@ == self.cards@,
            stack.details == self.spec_stack_details(),
    {
        let selection = match self.selection {
            Some(s) => Some(StackSelection { len: s.len, held: s.held_from.is_some() }),
            None => None,
        };
        Stack {
            cards: self.cards.as_slice(),
            details: StackDetails {
                orientation: Orientation::Vertical,
                len: self.cards.len(),
                face_up_len: self.revealed_len,
                visible_len: self.cards.len(),
                spread_len: self.revealed_len,
                selection,
            },
        }
    }

    /// Selects the top card; an empty tableaux cannot be selected.
    pub fn select(&mut self) -> (r: Result<(), Error>)
        requires
            old(self).wf(),
            old(self).selection is None,
        ensures
            final(self).wf(),
            final(self).index == old(self).index,
            final(self).cards@ == old(self).cards@,
            final(self).revealed_len == old(self).revealed_len,
            old(self).cards@.len() > 0 ==> r is Ok && final(self).selection == Some(
                Selection { held_from: None, len: 1 },
            ),
            old(self).cards@.len() == 0 ==> (r matches Err(e) && e.kind()
                == ErrorKind::NothingToSelect) && final(self).selection is None,
    {
        if self.cards.len() > 0 {
            self.selection = Some(Selection { held_from: None, len: 1 });
            Ok(())
        } else {
            Err(Error::new(ErrorKind::NothingToSelect, "Empty area"))
        }
    }

    /// Selects the tableaux while placing the held cards on it; it then holds them all. If it
    /// refuses them, it stays unselected and hands them back.
    pub fn select_with_held(&mut self, held: Held) -> (r: MoveResult<(), Held>)
        requires
            old(self).wf(),
            old(self).selection is None,
        ensures
            final(self).wf(),
            final(self).index == old(self).index,
            match old(self).spec_rejection(held.source, held.cards@) {
                None => r is Moved && final(self).cards@ == old(self).cards@ + held.cards@
                    && final(self).revealed_len == old(self).revealed_len + held.cards@.len()
                    && final(self).selection == Some(
                    Selection { held_from: Some(held.source), len: held.cards@.len() as usize },
                ),
                Some(kind) => r matches MoveResult::Unmoved(back, e) && e.kind() == kind
                    && back.source == held.source && back.cards@ == held.cards@
                    && final(self).cards@ == old(self).cards@
                    && final(self).revealed_len == old(self).revealed_len
                    && final(self).selection is None,
            },
    {
        let source = held.source;
        let len = held.cards.len();
        match self.give_cards(held) {
            MoveResult::Moved(()) => {
                self.selection = Some(Selection { held_from: Some(source), len });
                MoveResult::Moved(())
            },
            MoveResult::Unmoved(held, error) => MoveResult::Unmoved(held, error),
        }
    }

    /// Deselects the tableaux. If it was holding cards, the selected top cards are taken off and
    /// returned, marked with where they came from.
    pub fn deselect(&mut self) -> (held: Option<Held>)
        requires
            old(self).wf(),
            old(self).selection is Some,
        ensures
            final(self).wf(),
            final(self).index == old(self).index,
            final(self).selection is None,
            match old(self).selection {
                Some(s) => match s.held_from {
                    None => held is None && final(self).cards@ == old(self).cards@
                        && final(self).revealed_len == old(self).revealed_len,
                    Some(source) => held matches Some(h) && h.source == source
                        && old(self).cards@ == final(self).cards@ + h.cards@
                        && h.cards@.len() == s.len
                        && final(self).revealed_len == old(self).revealed_len - s.len,
                },
                None => false,
            },
    {
        let held = match self.selection {
            Some(selection) => match selection.held_from {
                Some(source) => Some(self.take_cards_from(selection.len, source)),
                None => None,
            },
            None => None,
        };
        self.selection = None;
        held
    }

    /// Puts held cards down; otherwise picks up the selected face-up cards; otherwise turns
    /// the top card face up. An empty tableaux has nothing to activate.
    pub fn activate(&mut self) -> (r: Result<Option<Action>, Error>)
        requires
            old(self).wf(),
            old(self).selection is Some,
        ensures
            final(self).wf(),
            final(self).index == old(self).index,
            final(self).cards@ == old(self).cards@,
            match old(self).selection {
                Some(s) => if s.held_from is Some {
                    r == Ok::<Option<Action>, Error>(None) && final(self).selection == Some(
                        Selection { held_from: None, len: s.len },
                    ) && final(self).revealed_len == old(self).revealed_len
                } else if old(self).revealed_len > 0 {
                    r == Ok::<Option<Action>, Error>(None) && final(self).selection == Some(
                        Selection { held_from: Some(old(self).spec_id()), len: s.len },
                    ) && final(self).revealed_len == old(self).revealed_len
                } else if old(self).cards@.len() > 0 {
                    r == Ok::<Option<Action>, Error>(None) && final(self).selection
                        == old(self).selection && final(self).revealed_len == 1
                } else {
                    (r matches Err(e) && e.kind() == ErrorKind::NothingToSelect)
                        && final(self).selection == old(self).selection
                        && final(self).revealed_len == old(self).revealed_len
                },
                None => false,
            },
    {
        if self.is_held() {
            let _ = self.put_down();
            Ok(None)
        } else if self.revealed_len > 0 {
            let _ = self.pick_up();
            Ok(None)
        } else if self.cards.len() > 0 {
            self.revealed_len = self.revealed_len + 1;
            Ok(None)
        } else {
            Err(Error::new(ErrorKind::NothingToSelect, "Empty area"))
        }
    }

    /// Picks up the selected cards, which must be face up.
    pub fn pick_up(&mut self) -> (r: Result<(), Error>)
        requires
            old(self).wf(),
            old(self).selection is Some,
        ensures
            final(self).wf(),
            final(self).index == old(self).index,
            final(self).cards@ == old(self).cards@,
            final(self).revealed_len == old(self).revealed_len,
            match old(self).selection {
                Some(s) => if s.held_from is Some {
                    (r matches Err(e) && e.kind() == ErrorKind::AlreadyHeld)
                        && final(self).selection == old(self).selection
                } else if old(self).cards@.len() == 0 || old(self).revealed_len == 0 {
                    (r matches Err(e) && e.kind() == ErrorKind::NothingToSelect)
                        && final(self).selection == old(self).selection
                } else {
                    r is Ok && final(self).selection == Some(
                        Selection { held_from: Some(old(self).spec_id()), len: s.len },
                    )
                },
                None => false,
            },
    {
        let selection = self.selection.unwrap();
        if selection.held_from.is_some() {
            return Err(Error::AlreadyHeld);
        }
        if self.cards.len() == 0 {
            return Err(Error::new(ErrorKind::NothingToSelect, "Empty area"));
        }
        if self.revealed_len == 0 {
            return Err(Error::new(ErrorKind::NothingToSelect, "No visible cards"));
        }
        self.selection = Some(Selection { held_from: Some(self.id()), len: selection.len });
        Ok(())
    }

    /// Stops holding the selected cards.
    pub fn put_down(&mut self) -> (r: Result<(), Error>)
        requires
            old(self).wf(),
            old(self).selection is Some,
        ensures
            final(self).wf(),
            final(self).index == old(self).index,
            final(self).cards@ == old(self).cards@,
            final(self).revealed_len == old(self).revealed_len,
            match old(self).selection {
                Some(s) => if s.held_from is Some {
                    r is Ok && final(self).selection == Some(
                        Selection { held_from: None, len: s.len },
                    )
                } else {
                    (r matches Err(e) && e.kind() == ErrorKind::NothingHeld)
                        && final(self).selection == old(self).selection
                },
                None => false,
            },
    {
        let selection = self.selection.unwrap();
        if selection.held_from.is_none() {
            return Err(Error::NothingHeld);
        }
        self.selection = Some(Selection { held_from: None, len: selection.len });
        Ok(())
    }

    /// Selects one more card, up to the number of face-up cards.
    pub fn select_more(&mut self) -> (r: Result<(), Error>)
        requires
            old(self).wf(),
            old(self).selection is Some,
        ensures
            final(self).wf(),
            final(self).index == old(self).index,
            final(self).cards@ == old(self).cards@,
            final(self).revealed_len == old(self).revealed_len,
            match old(self).selection {
                Some(s) => if s.len < old(self).revealed_len {
                    r is Ok && final(self).selection == Some(
                        Selection { held_from: s.held_from, len: (s.len + 1) as usize },
                    )
                } else {
                    (r matches Err(e) && e.kind() == ErrorKind::MaxSelection)
                        && final(self).selection == old(self).selection
                },
                None => false,
            },
    {
        let selection = self.selection.unwrap();
        if selection.len >= self.revealed_len {
            return Err(Error::MaxSelection);
        }
        self.selection = Some(Selection { held_from: selection.held_from, len: selection.len + 1 });
        Ok(())
    }

    /// Selects one card fewer, down to one.
    pub fn select_less(&mut self) -> (r: Result<(), Error>)
        requires
            old(self).wf(),
            old(self).selection is Some,
        ensures
            final(self).wf(),
            final(self).index == old(self).index,
            final(self).cards@ == old(self).cards@,
            final(self).revealed_len == old(self).revealed_len,
            match old(self).selection {
                Some(s) => if s.len > 1 {
                    r is Ok && final(self).selection == Some(
                        Selection { held_from: s.held_from, len: (s.len - 1) as usize },
                    )
                } else {
                    (r matches Err(e) && e.kind() == ErrorKind::MinSelection)
                        && final(self).selection == old(self).selection
                },
                None => false,
            },
    {
        let selection = self.selection.unwrap();
        if selection.len <= 1 {
            return Err(Error::MinSelection);
        }
        self.selection = Some(Selection { held_from: selection.held_from, len: selection.len - 1 });
        Ok(())
    }
}

/// Whether a card of `suit` is red (a heart or a diamond).
pub open spec fn spec_is_red(suit: Suit) -> bool {
    suit == Suit::Hearts || suit == Suit::Diamonds
}

/// A tableaux builds down in alternating colors: from another area it takes cards whose first
/// card ranks one below its top card and has the other color, the top card being face up, or
/// whose first card is a King when it is empty. Anything else is refused as invalid (a first
/// card of the top card's color among it), and the tableaux keeps its cards.
pub proof fn lemma_tableaux_builds_down_alternating(t: Tableaux, source: AreaId, cards: Seq<Card>)
    requires
        source != t.spec_id(),
        cards.len() > 0,
    ensures
        t.spec_rejection(source, cards) is None <==> if t.cards@.len() > 0 {
            let top = t.cards@.last();
            &&& t.revealed_len > 0
            &&& cards[0].rank.spec_value() + 1 == top.rank.spec_value()
            &&& spec_is_red(cards[0].suit) != spec_is_red(top.suit)
        } else {
            cards[0].rank.spec_value() == 13
        },
        t.cards@.len() > 0 && spec_is_red(cards[0].suit) == spec_is_red(t.cards@.last().suit)
            ==> t.spec_rejection(source, cards) == Some(ErrorKind::InvalidCard),
        t.spec_rejection(source, cards) is Some ==> t.spec_rejection(source, cards) == Some(
            ErrorKind::InvalidCard,
        ),
{
    if t.cards@.len() == 0 && cards[0].rank.spec_value() == 13 {
        assert(cards[0].rank == Rank::King);
    }
}

} // verus!
