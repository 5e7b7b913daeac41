//! A foundation: the pile of one suit built up from Ace to King.

use vstd::prelude::*;

use crate::model::{
    card::{Card, Rank, Suit},
    settings::GameSettings,
    stack::{Orientation, Stack, StackDetails, StackSelection},
};
use crate::utils::{split_off_bounded, spec_bounded_sub};

use super::{Action, AreaId, Error, ErrorKind, Held, MoveResult};

verus! {

/// Selection of a foundation. Only the top card can be selected, and it is either held or not.
#[derive(Copy, Clone, Debug, PartialEq, Eq, Structural)]
pub struct Selection {
    pub held_from: Option<AreaId>,
}

/// A foundation area. `selection` is `None` while the area is not selected.
#[derive(Debug)]
pub struct Foundation {
    /// The suit of this foundation; there is one foundation for each suit.
    pub suit: Suit,
    /// The cards, bottom first.
    pub cards: Vec<Card>,
    /// Whether cards may be picked up from a foundation.
    pub take_from_foundation: bool,
    /// The selection state.
    pub selection: Option<Selection>,
}

impl Foundation {
    pub open spec fn spec_id(&self) -> AreaId {
        AreaId::Foundation(self.suit)
    }

    /// Why the foundation refuses `cards` coming from `source`, or `None` if it accepts them.
    pub open spec fn spec_rejection(&self, source: AreaId, cards: Seq<Card>) -> Option<ErrorKind> {
        if source == self.spec_id() {
            None
        } else if cards.len() == 1 {
            let card = cards[0];
            if self.suit != card.suit {
                Some(ErrorKind::InvalidCard)
            } else if self.cards@.len() > 0 {
                if self.cards@.last().rank.spec_is_followed_by(card.rank) {
                    None
                } else {
                    Some(ErrorKind::InvalidCard)
                }
            } else if card.rank == Rank::Ace {
                None
            } else {
                Some(ErrorKind::InvalidCard)
            }
        } else if cards.len() == 0 {
            None
        } else {
            Some(ErrorKind::TooManyCards)
        }
    }

    pub open spec fn spec_is_held(&self) -> bool {
        self.selection matches Some(s) && s.held_from is Some
    }

    pub open spec fn spec_held_from(&self) -> Option<AreaId> {
        match self.selection {
            Some(s) => s.held_from,
            None => None,
        }
    }

    /// A new, unselected foundation.
    pub fn create(suit: Suit, cards: Vec<Card>, settings: &GameSettings) -> (f: Foundation)
        ensures
            f.suit == suit,
            f.cards@ == cards@,
            f.take_from_foundation == settings.take_from_foundation,
            f.selection is None,
    {
        Foundation {
            suit,
            cards,
            take_from_foundation: settings.take_from_foundation,
            selection: None,
        }
    }

    pub fn id(&self) -> (id: AreaId)
        ensures
            id == self.spec_id(),
    {
        AreaId::Foundation(self.suit)
    }

    pub fn is_selected(&self) -> (b: bool)
        ensures
            b == self.selection is Some,
    {
        self.selection.is_some()
    }

    pub fn is_held(&self) -> (b: bool)
        ensures
            b == self.spec_is_held(),
    {
        match self.selection {
            Some(selection) => selection.held_from.is_some(),
            None => false,
        }
    }

    /// The area the held cards came from, if the top card is held.
    pub fn held_from(&self) -> (source: Option<AreaId>)
        ensures
            source == self.spec_held_from(),
    {
        match self.selection {
            Some(selection) => selection.held_from,
            None => None,
        }
    }

    /// Checks whether the foundation accepts the held cards: its own cards always; otherwise
    /// exactly one card of its suit, which must be an Ace on an empty foundation or follow the
    /// top card. No cards at all are accepted too.
    pub fn validate_cards(&self, held: &Held) -> (r: Result<(), Error>)
        ensures
            match self.spec_rejection(held.source, held.cards@) {
                None => r is Ok,
                Some(kind) => r matches Err(e) && e.kind() == kind,
            },
    {
        if held.source == self.id() {
            Ok(())
        } else if held.cards.len() == 1 {
            let card = held.cards[0];
            if self.suit != card.suit {
                Err(Error::new(ErrorKind::InvalidCard, "Wrong suit"))
            } else if self.cards.len() > 0 {
                let top = self.cards[self.cards.len() - 1];
                if top.rank.is_followed_by(card.rank) {
                    Ok(())
                } else {
                    Err(Error::new(ErrorKind::InvalidCard, "Card does not follow"))
                }
            } else if card.rank == Rank::Ace {
                Ok(())
            } else {
                Err(Error::new(ErrorKind::InvalidCard, "Card does not follow: top: empty"))
            }
        } else if held.cards.len() == 0 {
            Ok(())
        } else {
            Err(Error::new(ErrorKind::TooManyCards, "Expected only one card"))
        }
    }

    /// Places the held cards on top of the foundation if it accepts them; otherwise hands them
    /// back. A selected foundation stops holding in either case.
    pub fn give_cards(&mut self, held: Held) -> (r: MoveResult<(), Held>)
        ensures
            final(self).suit == old(self).suit,
            final(self).take_from_foundation == old(self).take_from_foundation,
            final(self).selection == match old(self).selection {
                Some(_) => Some(Selection { held_from: None }),
                None => None::<Selection>,
            },
            match old(self).spec_rejection(held.source, held.cards@) {
                None => r is Moved && final(self).cards@ == old(self).cards@ + held.cards@,
                Some(kind) => r matches MoveResult::Unmoved(back, e) && e.kind() == kind
                    && back.source == held.source && back.cards@ == held.cards@
                    && final(self).cards@ == old(self).cards@,
            },
    {
        if self.selection.is_some() {
            self.selection = Some(Selection { held_from: None });
        }
        match self.validate_cards(&held) {
            Ok(_) => {
                let mut held = held;
                self.cards.append(&mut held.cards);
                MoveResult::Moved(())
            },
            Err(error) => MoveResult::Unmoved(held, error),
        }
    }

    /// Takes the top `len` cards (all when fewer), marked as coming from `source`.
    fn take_cards_from(&mut self, len: usize, source: AreaId) -> (held: Held)
        ensures
            final(self).suit == old(self).suit,
            final(self).take_from_foundation == old(self).take_from_foundation,
            final(self).selection == old(self).selection,
            held.source == source,
            old(self).cards@ == final(self).cards@ + held.cards@,
            final(self).cards@.len() == spec_bounded_sub(old(self).cards@.len() as usize, len),
    {
        let cards = split_off_bounded(&mut self.cards, len);
        Held { source, cards }
    }

    /// The source that cards taken now are attributed to: where held cards came from, or this
    /// foundation.
    pub open spec fn spec_take_source(&self) -> AreaId {
        match self.spec_held_from() {
            Some(source) => source,
            None => self.spec_id(),
        }
    }

    /// Takes the top `len` cards (all when fewer). A selected foundation stops holding.
    pub fn take_cards(&mut self, len: usize) -> (held: Held)
        ensures
            final(self).suit == old(self).suit,
            final(self).take_from_foundation == old(self).take_from_foundation,
            final(self).selection == match old(self).selection {
                Some(_) => Some(Selection { held_from: None }),
                None => None::<Selection>,
            },
            held.source == old(self).spec_take_source(),
            old(self).cards@ == final(self).cards@ + held.cards@,
            final(self).cards@.len() == spec_bounded_sub(old(self).cards@.len() as usize, len),
    {
        let source = match self.held_from() {
            Some(source) => source,
            None => self.id(),
        };
        if self.selection.is_some() {
            self.selection = Some(Selection { held_from: None });
        }
        self.take_cards_from(len, source)
    }

    /// Takes all cards. A selected foundation stops holding.
    pub fn take_all_cards(&mut self) -> (held: Held)
        ensures
            final(self).suit == old(self).suit,
            final(self).take_from_foundation == old(self).take_from_foundation,
            final(self).selection == match old(self).selection {
                Some(_) => Some(Selection { held_from: None }),
                None => None::<Selection>,
            },
            held.source == old(self).spec_take_source(),
            held.cards@ == old(self).cards@,
            final(self).cards@.len() == 0,
    {
        let len = self.cards.len();
        self.take_cards(len)
    }

    /// The card reported as the top card: the first card of the pile, if any.
    pub fn peek_top_card(&self) -> (card: Option<&Card>)
        ensures
            self.cards@.len() == 0 ==> card is None,
            self.cards@.len() > 0 ==> card == Some(&self.cards@[0]),
    {
        self.cards.first()
    }

    /// The layout of the area as a stack.
    pub open spec fn spec_stack_details(&self) -> StackDetails {
        StackDetails {
            orientation: Orientation::Horizontal,
            len: self.cards@.len() as usize,
            face_up_len: self.cards@.len() as usize,
            visible_len: 2,
            spread_len: 1,
            selection: match self.selection {
                Some(s) => Some(StackSelection { len: 1, held: s.held_from is Some }),
                None => None::<StackSelection>,
            },
        }
    }

    /// The layout of the foundation: spread horizontally, all face up, the top two visible.
    pub fn as_stack(&self) -> (stack: Stack<'_>)
        ensures
            stack.cards@ == self.cards@,
            stack.details == self.spec_stack_details(),
    {
        let cards_len = self.cards.len();
        let selection = match self.selection {
            Some(s) => Some(StackSelection { len: 1, held: s.held_from.is_some() }),
            None => None,
        };
        Stack {
            cards: self.cards.as_slice(),
            details: StackDetails {
                orientation: Orientation::Horizontal,
                len: cards_len,
                face_up_len: cards_len,
                visible_len: 2,
                spread_len: 1,
                selection,
            },
        }
    }

    /// Selects the foundation; an empty foundation cannot be selected.
    pub fn select(&mut self) -> (r: Result<(), Error>)
        requires
            old(self).selection is None,
        ensures
            final(self).suit == old(self).suit,
            final(self).cards@ == old(self).cards@,
            final(self).take_from_foundation == old(self).take_from_foundation,
            old(self).cards@.len() > 0 ==> r is Ok && final(self).selection == Some(
                Selection { held_from: None },
            ),
            old(self).cards@.len() == 0 ==> (r matches Err(e) && e.kind()
                == ErrorKind::NothingToSelect) && final(self).selection is None,
    {
        if self.cards.len() > 0 {
            self.selection = Some(Selection { held_from: None });
            Ok(())
        } else {
            Err(Error::new(ErrorKind::NothingToSelect, "Empty area"))
        }
    }

    /// Selects the foundation while placing the held cards on it; the foundation then holds
    /// them. If it refuses them, it stays unselected and hands them back.
    pub fn select_with_held(&mut self, held: Held) -> (r: MoveResult<(), Held>)
        requires
            old(self).selection is None,
        ensures
            final(self).suit == old(self).suit,
            final(self).take_from_foundation == old(self).take_from_foundation,
            match old(self).spec_rejection(held.source, held.cards@) {
                None => r is Moved && final(self).cards@ == old(self).cards@ + held.cards@
                    && final(self).selection == Some(Selection { held_from: Some(held.source) }),
                Some(kind) => r matches MoveResult::Unmoved(back, e) && e.kind() == kind
                    && back.source == held.source && back.cards@ == held.cards@
                    && final(self).cards@ == old(self).cards@ && final(self).selection is None,
            },
    {
        let source = held.source;
        match self.give_cards(held) {
            MoveResult::Moved(()) => {
                self.selection = Some(Selection { held_from: Some(source) });
                MoveResult::Moved(())
            },
            MoveResult::Unmoved(held, error) => MoveResult::Unmoved(held, error),
        }
    }

    /// Deselects the foundation. If it was holding its top card, that card is taken off and
    /// returned, marked with where it came from.
    pub fn deselect(&mut self) -> (held: Option<Held>)
        requires
            old(self).selection is Some,
        ensures
            final(self).suit == old(self).suit,
            final(self).take_from_foundation == old(self).take_from_foundation,
            final(self).selection is None,
            match old(self).spec_held_from() {
                None => held is None && final(self).cards@ == old(self).cards@,
                Some(source) => held matches Some(h) && h.source == source
                    && old(self).cards@ == final(self).cards@ + h.cards@
                    && final(self).cards@.len() == spec_bounded_sub(
                        old(self).cards@.len() as usize,
                        1,
                    ),
            },
    {
        let held = match self.held_from() {
            Some(source) => Some(self.take_cards_from(1, source)),
            None => None,
        };
        self.selection = None;
        held
    }

    /// Puts the held card down if one is held, otherwise picks the top card up.
    pub fn activate(&mut self) -> (r: Result<Option<Action>, Error>)
        requires
            old(self).selection is Some,
        ensures
            r == Ok::<Option<Action>, Error>(None),
            final(self).suit == old(self).suit,
            final(self).cards@ == old(self).cards@,
            final(self).take_from_foundation == old(self).take_from_foundation,
            old(self).spec_is_held() ==> final(self).selection == Some(
                Selection { held_from: None },
            ),
            !old(self).spec_is_held() ==> final(self).selection == Some(
                Selection {
                    held_from: if old(self).take_from_foundation {
                        Some(old(self).spec_id())
                    } else {
                        None::<AreaId>
                    },
                },
            ),
    {
        if self.is_held() {
            let _ = self.put_down();
        } else {
            let _ = self.pick_up();
        }
        Ok(None)
    }

    /// Picks up the top card, if the settings allow taking from a foundation.
    pub fn pick_up(&mut self) -> (r: Result<(), Error>)
        requires
            old(self).selection is Some,
        ensures
            r is Ok,
            final(self).suit == old(self).suit,
            final(self).cards@ == old(self).cards@,
            final(self).take_from_foundation == old(self).take_from_foundation,
            final(self).selection == if old(self).take_from_foundation {
                Some(Selection { held_from: Some(old(self).spec_id()) })
            } else {
                old(self).selection
            },
    {
        if self.take_from_foundation {
            self.selection = Some(Selection { held_from: Some(self.id()) });
        }
        Ok(())
    }

    /// Stops holding.
    pub fn put_down(&mut self) -> (r: Result<(), Error>)
        requires
            old(self).selection is Some,
        ensures
            r is Ok,
            final(self).suit == old(self).suit,
            final(self).cards@ == old(self).cards@,
            final(self).take_from_foundation == old(self).take_from_foundation,
            final(self).selection == Some(Selection { held_from: None }),
    {
        self.selection = Some(Selection { held_from: None });
        Ok(())
    }

    /// The selection of a foundation cannot grow.
    pub fn select_more(&mut self) -> (r: Result<(), Error>)
        ensures
            r matches Err(e) && e.kind() == ErrorKind::NotSupported,
            final(self).suit == old(self).suit,
            final(self).cards@ == old(self).cards@,
            final(self).take_from_foundation == old(self).take_from_foundation,
            final(self).selection == old(self).selection,
    {
        Err(Error::new(ErrorKind::NotSupported, "Selection cannot be changed"))
    }

    /// The selection of a foundation cannot shrink.
    pub fn select_less(&mut self) -> (r: Result<(), Error>)
        ensures
            r matches Err(e) && e.kind() == ErrorKind::NotSupported,
            final(self).suit == old(self).suit,
            final(self).cards@ == old(self).cards@,
            final(self).take_from_foundation == old(self).take_from_foundation,
            final(self).selection == old(self).selection,
    {
        Err(Error::new(ErrorKind::NotSupported, "Selection cannot be changed"))
    }
}

/// Whether `cards` are the cards of `suit` from the Ace up, one of each rank in order.
pub open spec fn spec_is_suit_run(suit: Suit, cards: Seq<Card>) -> bool {
    forall|k: int|
        0 <= k < cards.len() ==> (#[trigger] cards[k]).suit == suit && cards[k].rank.spec_value()
            == k + 1
}

/// A foundation builds up by suit: from another area it takes exactly one card, of its own
/// suit, whose rank is one above that of its top card (an Ace when it is empty). Any other
/// single card is refused as invalid (a card of another suit among them), and more than one
/// card as too many.
pub proof fn lemma_foundation_builds_up_by_suit(f: Foundation, source: AreaId, cards: Seq<Card>)
    requires
        source != f.spec_id(),
        cards.len() > 0,
    ensures
        f.spec_rejection(source, cards) is None <==> {
            &&& cards.len() == 1
            &&& cards[0].suit == f.suit
            &&& if f.cards@.len() > 0 {
                cards[0].rank.spec_value() == f.cards@.last().rank.spec_value() + 1
            } else {
                cards[0].rank.spec_value() == 1
            }
        },
        cards.len() == 1 && cards[0].suit != f.suit ==> f.spec_rejection(source, cards) == Some(
            ErrorKind::InvalidCard,
        ),
        cards.len() == 1 && f.spec_rejection(source, cards) is Some ==> f.spec_rejection(
            source,
            cards,
        ) == Some(ErrorKind::InvalidCard),
        cards.len() > 1 ==> f.spec_rejection(source, cards) == Some(ErrorKind::TooManyCards),
{
    if cards.len() == 1 && f.cards@.len() == 0 && cards[0].rank.spec_value() == 1 {
        assert(cards[0].rank == Rank::Ace);
    }
}

/// What a foundation is for: a foundation holding the cards of its suit from the Ace up still
/// holds such a run after taking cards from another area.
pub proof fn lemma_foundation_keeps_suit_run(f: Foundation, source: AreaId, cards: Seq<Card>)
    requires
        source != f.spec_id(),
        spec_is_suit_run(f.suit, f.cards@),
        f.spec_rejection(source, cards) is None,
    ensures
        spec_is_suit_run(f.suit, f.cards@ + cards),
{
    if cards.len() > 0 {
        lemma_foundation_builds_up_by_suit(f, source, cards);
    }
    let all = f.cards@ + cards;
    assert forall|k: int| 0 <= k < all.len() implies (#[trigger] all[k]).suit == f.suit
        && all[k].rank.spec_value() == k + 1 by {
        if k >= f.cards@.len() {
            assert(k == f.cards@.len());
            if f.cards@.len() > 0 {
                assert(f.cards@.last() == f.cards@[f.cards@.len() - 1]);
            }
        }
    }
}

} // verus!
