//! Any one of the four kinds of areas, with the operations they share.

use vstd::prelude::*;

use crate::model::{card::Card, stack::{Stack, StackDetails}};
use crate::utils::spec_bounded_sub;

use super::foundation::{self, Foundation};
use super::stock::{self, Stock};
use super::tableaux::{self, Tableaux};
use super::talon::{self, Talon};
use super::{Action, AreaId, Error, ErrorKind, Held, MoveResult};

verus! {

/// An area of the table: the stock, the talon, a foundation or a tableaux.
#[derive(Debug)]
pub enum AnyArea {
    Stock(Stock),
    Talon(Talon),
    Foundation(Foundation),
    Tableaux(Tableaux),
}

/// The selection state and counters of an area, without its cards.
#[derive(Copy, Clone, Debug, PartialEq, Eq, Structural)]
pub enum Snapshot {
    Stock(Option<stock::Selection>),
    Talon(Option<talon::Selection>, usize),
    Foundation(Option<foundation::Selection>),
    Tableaux(Option<tableaux::Selection>, usize),
}

/// The cards of an optional hand, none when there is no hand.
pub open spec fn held_cards(held: Option<Held>) -> Seq<Card> {
    match held {
        Some(h) => h.cards@,
        None => Seq::empty(),
    }
}

impl AnyArea {
    pub open spec fn spec_id(&self) -> AreaId {
        match self {
            AnyArea::Stock(a) => a.spec_id(),
            AnyArea::Talon(a) => a.spec_id(),
            AnyArea::Foundation(a) => a.spec_id(),
            AnyArea::Tableaux(a) => a.spec_id(),
        }
    }

    /// The cards of the area, bottom first.
    pub open spec fn spec_cards(&self) -> Seq<Card> {
        match self {
            AnyArea::Stock(a) => a.cards@,
            AnyArea::Talon(a) => a.cards@,
            AnyArea::Foundation(a) => a.cards@,
            AnyArea::Tableaux(a) => a.cards@,
        }
    }

    /// Whether activating the selected area fails: only an empty tableaux that holds nothing has
    /// nothing to activate.
    pub open spec fn spec_activation_fails(&self) -> bool {
        match self {
            AnyArea::Tableaux(a) => a.selection matches Some(s) && s.held_from is None
                && a.revealed_len == 0 && a.cards@.len() == 0,
            _ => false,
        }
    }

    /// How activating the selected area changes it into `new`: the stock does not change (it
    /// asks the table to draw or restock); the talon and a foundation put held cards down or
    /// else pick up their top card (a foundation only where the rules allow taking from it);
    /// a tableaux puts held cards down, or else picks up its selected face-up cards, or else
    /// turns its top card face up. Cards never move.
    pub open spec fn spec_activates(&self, new: AnyArea) -> bool {
        match (*self, new) {
            (AnyArea::Stock(a), AnyArea::Stock(b)) => b.cards@ == a.cards@
                && b.draw_from_stock_len == a.draw_from_stock_len && b.selection == a.selection,
            (AnyArea::Talon(a), AnyArea::Talon(b)) => b.cards@ == a.cards@ && b.fanned_len
                == a.fanned_len && b.selection == Some(
                talon::Selection {
                    held_from: if a.spec_is_held() {
                        None
                    } else {
                        Some(AreaId::Talon)
                    },
                },
            ),
            (AnyArea::Foundation(a), AnyArea::Foundation(b)) => b.suit == a.suit && b.cards@
                == a.cards@ && b.take_from_foundation == a.take_from_foundation && b.selection
                == Some(
                foundation::Selection {
                    held_from: if a.spec_is_held() || !a.take_from_foundation {
                        None
                    } else {
                        Some(a.spec_id())
                    },
                },
            ),
            (AnyArea::Tableaux(a), AnyArea::Tableaux(b)) => b.index == a.index && b.cards@
                == a.cards@ && match a.selection {
                Some(s) => if s.held_from is Some {
                    b.selection == Some(tableaux::Selection { held_from: None, len: s.len })
                        && b.revealed_len == a.revealed_len
                } else if a.revealed_len > 0 {
                    b.selection == Some(
                        tableaux::Selection { held_from: Some(a.spec_id()), len: s.len },
                    ) && b.revealed_len == a.revealed_len
                } else if a.cards@.len() > 0 {
                    b.selection == a.selection && b.revealed_len == 1
                } else {
                    b.selection == a.selection && b.revealed_len == a.revealed_len
                },
                None => false,
            },
            _ => false,
        }
    }

    /// Whether the selection of the area can grow by one card (`more`) or shrink by one: only
    /// a tableaux's can, up to its face-up cards and down to one card.
    pub open spec fn spec_can_resize(&self, more: bool) -> bool {
        match self {
            AnyArea::Tableaux(a) => a.selection matches Some(s) && if more {
                s.len < a.revealed_len
            } else {
                s.len > 1
            },
            _ => false,
        }
    }

    /// How selecting one card more (`more`) or fewer changes the area into `new`: where it can
    /// (see `spec_can_resize`), the selection of the tableaux grows or shrinks by one card and
    /// stays held or not; otherwise nothing changes.
    pub open spec fn spec_resizes(&self, new: AnyArea, more: bool) -> bool {
        if self.spec_can_resize(more) {
            match (*self, new) {
                (AnyArea::Tableaux(a), AnyArea::Tableaux(b)) => b.index == a.index && b.cards@
                    == a.cards@ && b.revealed_len == a.revealed_len && b.selection == Some(
                    tableaux::Selection {
                        held_from: a.selection.unwrap().held_from,
                        len: (if more {
                            a.selection.unwrap().len + 1
                        } else {
                            a.selection.unwrap().len - 1
                        }) as usize,
                    },
                ),
                _ => false,
            }
        } else {
            new.spec_snapshot() == self.spec_snapshot() && new.spec_cards() == self.spec_cards()
        }
    }

    /// Whether the selected cards of the area can be picked up: never in the stock; always in
    /// the talon and a foundation; in a tableaux when nothing is held yet and it has face-up
    /// cards.
    pub open spec fn spec_can_pick_up(&self) -> bool {
        match self {
            AnyArea::Stock(_) => false,
            AnyArea::Tableaux(a) => !a.spec_is_held() && a.cards@.len() > 0 && a.revealed_len > 0,
            _ => true,
        }
    }

    /// Where the picked-up cards of the area are held from after picking them up: the area
    /// itself where it can pick them up (for a foundation, only where the rules allow taking
    /// from it); otherwise nothing changes.
    pub open spec fn spec_picked_up_from(&self) -> Option<AreaId> {
        match self {
            AnyArea::Foundation(a) => if a.take_from_foundation {
                Some(self.spec_id())
            } else {
                self.spec_held_from()
            },
            _ => if self.spec_can_pick_up() {
                Some(self.spec_id())
            } else {
                self.spec_held_from()
            },
        }
    }

    /// The card the area reports as its top card: the last card of the stock, and the first
    /// card of the talon, a foundation or a tableaux; none when the area is empty.
    pub open spec fn spec_peeked_card(&self) -> Option<&Card> {
        let cards = self.spec_cards();
        if cards.len() == 0 {
            None
        } else if *self is Stock {
            Some(&cards.last())
        } else {
            Some(&cards[0])
        }
    }

    /// The layout of the area as a stack.
    pub open spec fn spec_stack_details(&self) -> StackDetails {
        match self {
            AnyArea::Stock(a) => a.spec_stack_details(),
            AnyArea::Talon(a) => a.spec_stack_details(),
            AnyArea::Foundation(a) => a.spec_stack_details(),
            AnyArea::Tableaux(a) => a.spec_stack_details(),
        }
    }

    pub open spec fn spec_selected(&self) -> bool {
        match self {
            AnyArea::Stock(a) => a.selection is Some,
            AnyArea::Talon(a) => a.selection is Some,
            AnyArea::Foundation(a) => a.selection is Some,
            AnyArea::Tableaux(a) => a.selection is Some,
        }
    }

    pub open spec fn spec_held_from(&self) -> Option<AreaId> {
        match self {
            AnyArea::Stock(a) => None,
            AnyArea::Talon(a) => a.spec_held_from(),
            AnyArea::Foundation(a) => a.spec_held_from(),
            AnyArea::Tableaux(a) => a.spec_held_from(),
        }
    }

    /// The cards that deselecting the area hands over: the held top cards, if any.
    pub open spec fn spec_hand(&self) -> Seq<Card> {
        let cards = self.spec_cards();
        match self {
            AnyArea::Stock(a) => Seq::empty(),
            AnyArea::Tableaux(a) => match a.selection {
                Some(s) => if s.held_from is Some {
                    cards.skip(cards.len() - s.len)
                } else {
                    Seq::empty()
                },
                None => Seq::empty(),
            },
            _ => if self.spec_held_from() is Some {
                cards.skip(spec_bounded_sub(cards.len() as usize, 1) as int)
            } else {
                Seq::empty()
            },
        }
    }

    pub open spec fn wf(&self) -> bool {
        match self {
            AnyArea::Stock(a) => true,
            AnyArea::Talon(a) => a.wf(),
            AnyArea::Foundation(a) => true,
            AnyArea::Tableaux(a) => a.wf(),
        }
    }

    pub open spec fn spec_rejection(&self, source: AreaId, cards: Seq<Card>) -> Option<ErrorKind> {
        match self {
            AnyArea::Stock(a) => a.spec_rejection(source, cards),
            AnyArea::Talon(a) => a.spec_rejection(source, cards),
            AnyArea::Foundation(a) => a.spec_rejection(source, cards),
            AnyArea::Tableaux(a) => a.spec_rejection(source, cards),
        }
    }

    /// Whether the player can select the area (without holding cards): the stock always, any
    /// other area when it has cards.
    pub open spec fn spec_can_select(&self) -> bool {
        match self {
            AnyArea::Stock(a) => true,
            _ => self.spec_cards().len() > 0,
        }
    }

    /// Whether cards held by the player can be moved onto the area: the stock never accepts
    /// them; another area accepts what it would accept as given cards.
    pub open spec fn spec_accepts_held(&self, source: AreaId, cards: Seq<Card>) -> bool {
        match self {
            AnyArea::Stock(a) => false,
            _ => self.spec_rejection(source, cards) is None,
        }
    }

    pub open spec fn spec_snapshot(&self) -> Snapshot {
        match self {
            AnyArea::Stock(a) => Snapshot::Stock(a.selection),
            AnyArea::Talon(a) => Snapshot::Talon(a.selection, a.fanned_len),
            AnyArea::Foundation(a) => Snapshot::Foundation(a.selection),
            AnyArea::Tableaux(a) => Snapshot::Tableaux(a.selection, a.revealed_len),
        }
    }

    /// Everything but the selection and the cards stays the same.
    pub open spec fn spec_same_kind(&self, other: &AnyArea) -> bool {
        match (self, other) {
            (AnyArea::Stock(a), AnyArea::Stock(b)) => a.draw_from_stock_len
                == b.draw_from_stock_len,
            (AnyArea::Talon(a), AnyArea::Talon(b)) => true,
            (AnyArea::Foundation(a), AnyArea::Foundation(b)) => a.suit == b.suit
                && a.take_from_foundation == b.take_from_foundation,
            (AnyArea::Tableaux(a), AnyArea::Tableaux(b)) => a.index == b.index,
            _ => false,
        }
    }

    pub fn id(&self) -> (id: AreaId)
        ensures
            id == self.spec_id(),
    {
        match self {
            AnyArea::Stock(a) => a.id(),
            AnyArea::Talon(a) => a.id(),
            AnyArea::Foundation(a) => a.id(),
            AnyArea::Tableaux(a) => a.id(),
        }
    }

    pub fn is_selected(&self) -> (b: bool)
        ensures
            b == self.spec_selected(),
    {
        match self {
            AnyArea::Stock(a) => a.is_selected(),
            AnyArea::Talon(a) => a.is_selected(),
            AnyArea::Foundation(a) => a.is_selected(),
            AnyArea::Tableaux(a) => a.is_selected(),
        }
    }

    /// Whether the area holds cards picked up by the player.
    pub fn is_held(&self) -> (b: bool)
        ensures
            b == self.spec_held_from() is Some,
    {
        match self {
            AnyArea::Stock(a) => a.is_held(),
            AnyArea::Talon(a) => a.is_held(),
            AnyArea::Foundation(a) => a.is_held(),
            AnyArea::Tableaux(a) => a.is_held(),
        }
    }

    /// Where the held cards came from, if the area holds any.
    pub fn held_from(&self) -> (source: Option<AreaId>)
        ensures
            source == self.spec_held_from(),
    {
        match self {
            AnyArea::Stock(a) => a.held_from(),
            AnyArea::Talon(a) => a.held_from(),
            AnyArea::Foundation(a) => a.held_from(),
            AnyArea::Tableaux(a) => a.held_from(),
        }
    }

    /// The top card, if any.
    pub fn peek_top_card(&self) -> (card: Option<&Card>)
        ensures
            card == self.spec_peeked_card(),
    {
        match self {
            AnyArea::Stock(a) => a.peek_top_card(),
            AnyArea::Talon(a) => a.peek_top_card(),
            AnyArea::Foundation(a) => a.peek_top_card(),
            AnyArea::Tableaux(a) => a.peek_top_card(),
        }
    }

    /// The cards of the area with their layout.
    pub fn as_stack(&self) -> (stack: Stack<'_>)
        ensures
            stack.cards@ == self.spec_cards(),
            stack.details == self.spec_stack_details(),
            stack.details.len == self.spec_cards().len() as usize,
            stack.details.selection is Some <==> self.spec_selected(),
            self.spec_selected() ==> (stack.details.selection matches Some(s) && s.held
                == self.spec_held_from() is Some),
    {
        match self {
            AnyArea::Stock(a) => a.as_stack(),
            AnyArea::Talon(a) => a.as_stack(),
            AnyArea::Foundation(a) => a.as_stack(),
            AnyArea::Tableaux(a) => a.as_stack(),
        }
    }

    /// Selects the area if it can be selected; otherwise it stays as it was.
    pub fn select(&mut self) -> (r: Result<(), Error>)
        requires
            old(self).wf(),
            !old(self).spec_selected(),
        ensures
            final(self).wf(),
            final(self).spec_id() == old(self).spec_id(),
            final(self).spec_same_kind(old(self)),
            final(self).spec_cards() == old(self).spec_cards(),
            r is Ok <==> old(self).spec_can_select(),
            r is Ok ==> final(self).spec_selected() && final(self).spec_held_from() is None,
            r is Err ==> final(self).spec_snapshot() == old(self).spec_snapshot(),
            r matches Err(e) ==> e.kind() == ErrorKind::NothingToSelect,
    {
        match self {
            AnyArea::Stock(a) => a.select(),
            AnyArea::Talon(a) => a.select(),
            AnyArea::Foundation(a) => a.select(),
            AnyArea::Tableaux(a) => a.select(),
        }
    }

    /// Selects the area while moving the held cards onto it; it then holds them. If it refuses
    /// them, it stays as it was and hands them back.
    pub fn select_with_held(&mut self, held: Held) -> (r: MoveResult<(), Held>)
        requires
            old(self).wf(),
            !old(self).spec_selected(),
        ensures
            final(self).wf(),
            final(self).spec_id() == old(self).spec_id(),
            final(self).spec_same_kind(old(self)),
            old(self).spec_accepts_held(held.source, held.cards@) ==> {
                &&& r is Moved
                &&& final(self).spec_cards() == old(self).spec_cards() + held.cards@
                &&& final(self).spec_selected()
                &&& final(self).spec_held_from() == Some(held.source)
            },
            *old(self) is Tableaux && old(self).spec_accepts_held(held.source, held.cards@)
                ==> final(self).spec_hand() == held.cards@,
            !old(self).spec_accepts_held(held.source, held.cards@) ==> {
                &&& r matches MoveResult::Unmoved(back, _) && back.source == held.source
                    && back.cards@ == held.cards@
                &&& final(self).spec_cards() == old(self).spec_cards()
                &&& final(self).spec_snapshot() == old(self).spec_snapshot()
            },
    {
        match self {
            AnyArea::Stock(a) => a.select_with_held(held),
            AnyArea::Talon(a) => a.select_with_held(held),
            AnyArea::Foundation(a) => a.select_with_held(held),
            AnyArea::Tableaux(a) => {
                let ghost before = a.cards@;
                let ghost given = held.cards@;
                let r = a.select_with_held(held);
                proof {
                    if r is Moved {
                        assert(a.cards@.skip(before.len() as int) =~= given);
                    }
                }
                r
            },
        }
    }

    /// Deselects the area, handing over the cards it was holding (taken off its top), if any.
    pub fn deselect(&mut self) -> (held: Option<Held>)
        requires
            old(self).wf(),
            old(self).spec_selected(),
        ensures
            final(self).wf(),
            final(self).spec_id() == old(self).spec_id(),
            final(self).spec_same_kind(old(self)),
            !final(self).spec_selected(),
            old(self).spec_cards() == final(self).spec_cards() + held_cards(held),
            held_cards(held) == old(self).spec_hand(),
            old(self).spec_held_from() is None ==> held is None,
            old(self).spec_held_from() matches Some(source) ==> (held matches Some(h)
                && h.source == source),
    {
        let ghost before = old(self).spec_cards();
        let held = match self {
            AnyArea::Stock(a) => a.deselect(),
            AnyArea::Talon(a) => a.deselect(),
            AnyArea::Foundation(a) => a.deselect(),
            AnyArea::Tableaux(a) => a.deselect(),
        };
        proof {
            let rest = self.spec_cards();
            assert(held_cards(held) =~= before.skip(rest.len() as int));
        }
        held
    }

    /// Puts back cards and a selection state recorded earlier.
    pub fn restore(&mut self, snapshot: Snapshot, held: Option<Held>)
        requires
            match (*old(self), snapshot) {
                (AnyArea::Stock(_), Snapshot::Stock(_)) => true,
                (AnyArea::Talon(_), Snapshot::Talon(_, _)) => true,
                (AnyArea::Foundation(_), Snapshot::Foundation(_)) => true,
                (AnyArea::Tableaux(_), Snapshot::Tableaux(_, _)) => true,
                _ => false,
            },
        ensures
            final(self).spec_id() == old(self).spec_id(),
            final(self).spec_same_kind(old(self)),
            final(self).spec_cards() == old(self).spec_cards() + held_cards(held),
            final(self).spec_snapshot() == snapshot,
    {
        let mut cards = match held {
            Some(h) => h.cards,
            None => Vec::new(),
        };
        match self {
            AnyArea::Stock(a) => {
                a.cards.append(&mut cards);
                if let Snapshot::Stock(selection) = snapshot {
                    a.selection = selection;
                }
            },
            AnyArea::Talon(a) => {
                a.cards.append(&mut cards);
                if let Snapshot::Talon(selection, fanned_len) = snapshot {
                    a.selection = selection;
                    a.fanned_len = fanned_len;
                }
            },
            AnyArea::Foundation(a) => {
                a.cards.append(&mut cards);
                if let Snapshot::Foundation(selection) = snapshot {
                    a.selection = selection;
                }
            },
            AnyArea::Tableaux(a) => {
                a.cards.append(&mut cards);
                if let Snapshot::Tableaux(selection, revealed_len) = snapshot {
                    a.selection = selection;
                    a.revealed_len = revealed_len;
                }
            },
        }
    }

    /// The selection state and counters of the area.
    pub fn snapshot(&self) -> (s: Snapshot)
        ensures
            s == self.spec_snapshot(),
    {
        match self {
            AnyArea::Stock(a) => Snapshot::Stock(a.selection),
            AnyArea::Talon(a) => Snapshot::Talon(a.selection, a.fanned_len),
            AnyArea::Foundation(a) => Snapshot::Foundation(a.selection),
            AnyArea::Tableaux(a) => Snapshot::Tableaux(a.selection, a.revealed_len),
        }
    }

    /// Activates the selected area. Only the stock asks the table for an action.
    pub fn activate(&mut self) -> (r: Result<Option<Action>, Error>)
        requires
            old(self).wf(),
            old(self).spec_selected(),
        ensures
            final(self).wf(),
            final(self).spec_id() == old(self).spec_id(),
            final(self).spec_same_kind(old(self)),
            final(self).spec_cards() == old(self).spec_cards(),
            final(self).spec_selected(),
            r matches Ok(Some(_)) ==> *old(self) is Stock && final(self).spec_snapshot()
                == old(self).spec_snapshot(),
            *old(self) matches AnyArea::Stock(s) ==> r == Ok::<Option<Action>, Error>(
                Some(
                    if s.cards@.len() == 0 {
                        Action::Restock
                    } else {
                        Action::Draw(s.draw_from_stock_len)
                    },
                ),
            ),
            old(self).spec_activates(*final(self)),
            r is Err <==> old(self).spec_activation_fails(),
            !(*old(self) is Stock) && r is Ok ==> r == Ok::<Option<Action>, Error>(None),
    {
        match self {
            AnyArea::Stock(a) => a.activate(),
            AnyArea::Talon(a) => a.activate(),
            AnyArea::Foundation(a) => a.activate(),
            AnyArea::Tableaux(a) => a.activate(),
        }
    }

    /// Picks up the selected cards.
    pub fn pick_up(&mut self) -> (r: Result<(), Error>)
        requires
            old(self).wf(),
            old(self).spec_selected(),
        ensures
            final(self).wf(),
            final(self).spec_id() == old(self).spec_id(),
            final(self).spec_same_kind(old(self)),
            final(self).spec_cards() == old(self).spec_cards(),
            final(self).spec_selected(),
            r is Ok <==> old(self).spec_can_pick_up(),
            final(self).spec_held_from() == old(self).spec_picked_up_from(),
            final(self).spec_stack_details().selection matches Some(sel) ==> old(
                self,
            ).spec_stack_details().selection matches Some(before) && sel.len == before.len,
    {
        match self {
            AnyArea::Stock(a) => a.pick_up(),
            AnyArea::Talon(a) => a.pick_up(),
            AnyArea::Foundation(a) => a.pick_up(),
            AnyArea::Tableaux(a) => a.pick_up(),
        }
    }

    /// Stops holding the selected cards.
    pub fn put_down(&mut self) -> (r: Result<(), Error>)
        requires
            old(self).wf(),
            old(self).spec_selected(),
        ensures
            final(self).wf(),
            final(self).spec_id() == old(self).spec_id(),
            final(self).spec_same_kind(old(self)),
            final(self).spec_cards() == old(self).spec_cards(),
            final(self).spec_selected(),
            old(self).spec_held_from() is Some ==> r is Ok && final(self).spec_held_from()
                is None,
            old(self).spec_held_from() is None ==> final(self).spec_snapshot() == old(
                self,
            ).spec_snapshot(),
            r is Err <==> (*old(self) is Stock || (*old(self) is Tableaux && old(
                self,
            ).spec_held_from() is None)),
    {
        match self {
            AnyArea::Stock(a) => a.put_down(),
            AnyArea::Talon(a) => a.put_down(),
            AnyArea::Foundation(a) => a.put_down(),
            AnyArea::Tableaux(a) => a.put_down(),
        }
    }

    /// Selects one more card, where the area allows it.
    pub fn select_more(&mut self) -> (r: Result<(), Error>)
        requires
            old(self).wf(),
            old(self).spec_selected(),
        ensures
            final(self).wf(),
            final(self).spec_id() == old(self).spec_id(),
            final(self).spec_same_kind(old(self)),
            final(self).spec_cards() == old(self).spec_cards(),
            final(self).spec_selected(),
            final(self).spec_held_from() == old(self).spec_held_from(),
            !(*old(self) is Tableaux) ==> (r matches Err(e) && e.kind() == ErrorKind::NotSupported),
            old(self).spec_resizes(*final(self), true),
            r is Ok <==> old(self).spec_can_resize(true),
    {
        match self {
            AnyArea::Stock(a) => a.select_more(),
            AnyArea::Talon(a) => a.select_more(),
            AnyArea::Foundation(a) => a.select_more(),
            AnyArea::Tableaux(a) => a.select_more(),
        }
    }

    /// Selects one card fewer, where the area allows it.
    pub fn select_less(&mut self) -> (r: Result<(), Error>)
        requires
            old(self).wf(),
            old(self).spec_selected(),
        ensures
            final(self).wf(),
            final(self).spec_id() == old(self).spec_id(),
            final(self).spec_same_kind(old(self)),
            final(self).spec_cards() == old(self).spec_cards(),
            final(self).spec_selected(),
            final(self).spec_held_from() == old(self).spec_held_from(),
            !(*old(self) is Tableaux) ==> (r matches Err(e) && e.kind() == ErrorKind::NotSupported),
            old(self).spec_resizes(*final(self), false),
            r is Ok <==> old(self).spec_can_resize(false),
    {
        match self {
            AnyArea::Stock(a) => a.select_less(),
            AnyArea::Talon(a) => a.select_less(),
            AnyArea::Foundation(a) => a.select_less(),
            AnyArea::Tableaux(a) => a.select_less(),
        }
    }
}

/// Cards from a foundation or a tableaux never go to the stock or the talon: both refuse them
/// as not supported, and the player cannot move held cards onto either.
pub proof fn lemma_stock_and_talon_refuse_played_cards(
    area: AnyArea,
    source: AreaId,
    cards: Seq<Card>,
)
    requires
        source is Foundation || source is Tableaux,
        area is Stock || area is Talon,
    ensures
        area.spec_rejection(source, cards) == Some(ErrorKind::NotSupported),
        !area.spec_accepts_held(source, cards),
{
}

} // verus!
