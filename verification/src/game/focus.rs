//! A Klondike game whose areas take the focus: the selection names an area and either a number
//! of its top cards or cards held over it, and activating the selected area draws, picks up,
//! puts down or turns cards.

use vstd::multiset::Multiset;
use vstd::prelude::*;

use super::card::Card;
use super::deck::Deck;
use super::klondike::{spec_deck_before_pile, spec_tableaux_pile};
use super::stack::{Stack, StackDetails, StackSelection};
use crate::model::settings::GameSettings;
use crate::utils::lemma_empty_to_multiset;

verus! {

/// An area of the table.
#[derive(Copy, Clone, Debug, PartialEq, Eq, Structural)]
pub enum AreaId {
    Stock,
    Talon,
    Foundation(usize),
    Tableaux(usize),
}

/// Cards picked up from an area.
#[derive(Debug)]
pub struct Held {
    pub source: AreaId,
    pub cards: Vec<Card>,
}

/// The cards held by the player, if any.
#[derive(Debug)]
pub struct Focus {
    pub held: Option<Held>,
}

/// What the selection holds: a number of the selected area's top cards, or cards picked up.
#[derive(Debug)]
pub enum SelectionMode {
    Cards(usize),
    Held(Held),
}

/// The selected area and what is selected there.
#[derive(Debug)]
pub struct Selection {
    pub target: AreaId,
    pub mode: SelectionMode,
}

/// What the game does after an area was activated.
#[derive(Copy, Clone, Debug, PartialEq, Eq, Structural)]
pub enum Action {
    /// Draw cards from the stock onto the talon.
    Draw,
    /// Turn the talon over onto the stock.
    Restock,
    /// Cards held from the given area were put down.
    MoveTo(AreaId),
}

impl SelectionMode {
    /// A fresh selection of the top card.
    pub fn new() -> (mode: SelectionMode)
        ensures
            mode matches SelectionMode::Cards(len) && len == 1,
    {
        SelectionMode::Cards(1)
    }

    /// The number of cards held by the mode.
    pub open spec fn spec_held_len(&self) -> int {
        match self {
            SelectionMode::Held(held) => held.cards@.len() as int,
            SelectionMode::Cards(_) => 0,
        }
    }
}

impl Selection {
    /// The top card of the stock selected.
    pub fn new() -> (selection: Selection)
        ensures
            selection.target == AreaId::Stock,
            selection.mode matches SelectionMode::Cards(len) && len == 1,
    {
        Selection { target: AreaId::Stock, mode: SelectionMode::new() }
    }

    /// Whether the selection is on `area_id`.
    pub fn matches(&self, area_id: AreaId) -> (b: bool)
        ensures
            b == (self.target == area_id),
    {
        self.target == area_id
    }
}

/// The focus as it arrives at another area: held cards stay held; otherwise the top card is
/// selected.
pub open spec fn spec_moved_mode(mode: SelectionMode) -> SelectionMode {
    match mode {
        SelectionMode::Held(held) => SelectionMode::Held(held),
        SelectionMode::Cards(_) => SelectionMode::Cards(1),
    }
}

/// The rule a foundation applies to cards held over it: its own cards always come back; other
/// cards come one at a time, of its suit and ranking directly above its top card, or an Ace on
/// an empty foundation.
pub open spec fn spec_foundation_takes(index: usize, pile: Seq<Card>, held: Held) -> bool {
    if held.source == AreaId::Foundation(index) {
        true
    } else if held.cards@.len() == 1 {
        let card = held.cards@[0];
        &&& index == card.suit.spec_index()
        &&& if pile.len() > 0 {
            pile.last().rank.spec_is_followed_by(card.rank)
        } else {
            card.rank.0 == 1
        }
    } else {
        false
    }
}

/// The rule a tableaux applies to cards held over it: its own cards always come back; other
/// cards when the first ranks directly below its face-up top card and has the other color, or
/// is a King on an empty tableaux.
pub open spec fn spec_tableaux_takes(index: usize, pile: Seq<Card>, held: Held) -> bool {
    if held.source == AreaId::Tableaux(index) {
        true
    } else if held.cards@.len() > 0 {
        let card = held.cards@[0];
        if pile.len() > 0 {
            &&& pile.last().face_up
            &&& card.rank.spec_is_followed_by(pile.last().rank)
            &&& card.spec_color() != pile.last().spec_color()
        } else {
            card.rank.0 == 13
        }
    } else {
        false
    }
}

/// The cards of `cards` in reverse order, each turned to `face_up`.
pub open spec fn spec_turned(cards: Seq<Card>, face_up: bool) -> Seq<Card> {
    cards.reverse().map_values(|card: Card| Card { face_up, ..card })
}

/// The mode a reference points to.
pub open spec fn spec_deref_mode(mode: Option<&SelectionMode>) -> Option<SelectionMode> {
    match mode {
        Some(m) => Some(*m),
        None => None,
    }
}

/// The cards that float over an area with the focus in `mode`: the held cards, if any.
pub open spec fn spec_floating(mode: Option<SelectionMode>) -> Seq<Card> {
    match mode {
        Some(SelectionMode::Held(held)) => held.cards@,
        _ => Seq::empty(),
    }
}

/// Appends `cards` to `pile`, leaving `cards` empty.
fn append_cards(pile: &mut Vec<Card>, cards: &mut Vec<Card>)
    requires
        old(pile)@.len() + old(cards)@.len() <= usize::MAX,
    ensures
        final(pile)@ == old(pile)@ + old(cards)@,
        final(cards)@.len() == 0,
{
    pile.append(cards);
}

/// `cards` in reverse order, each turned to `face_up`.
fn turn_over(cards: Vec<Card>, face_up: bool) -> (turned: Vec<Card>)
    ensures
        turned@ == spec_turned(cards@, face_up),
{
    let mut turned: Vec<Card> = Vec::new();
    let mut k: usize = cards.len();
    while k > 0
        invariant
            k <= cards@.len(),
            turned@ == spec_turned(cards@.skip(k as int), face_up),
        decreases k,
    {
        k = k - 1;
        let mut card = cards[k];
        card.face_up = face_up;
        turned.push(card);
        assert(turned@ =~= spec_turned(cards@.skip(k as int), face_up));
    }
    assert(cards@.skip(0) =~= cards@);
    turned
}

/// An area that takes the focus.
pub trait Area {
    spec fn spec_id(&self) -> AreaId;

    /// Whether the area takes the focus in `mode`.
    spec fn spec_accepts_focus(&self, mode: SelectionMode) -> bool;

    fn id(&self) -> (id: AreaId)
        ensures
            id == self.spec_id(),
    ;

    fn accepts_focus(&self, mode: &SelectionMode) -> (b: bool)
        ensures
            b == self.spec_accepts_focus(*mode),
    ;

    /// The area with the focus in `mode`, or without the focus, as a stack.
    fn as_stack<'a>(&'a self, mode: Option<&'a SelectionMode>) -> Stack<'a>;
}

/// The stock: cards face down, drawn a few at a time onto the talon.
#[derive(Debug)]
pub struct Stock {
    pub cards: Vec<Card>,
    pub draw_from_stock_len: usize,
}

impl Stock {
    /// The layout of the area as a stack, with the focus in `mode` or without it.
    pub open spec fn spec_stack_details(&self, mode: Option<SelectionMode>) -> StackDetails {
        StackDetails {
            len: self.cards@.len() as usize,
            visible_len: 2,
            spread_len: 1,
            selection: if mode is Some {
                Some(StackSelection::Cards(1))
            } else {
                None
            },
        }
    }

    pub fn new(cards: Vec<Card>, settings: &GameSettings) -> (stock: Stock)
        ensures
            stock.cards@ == cards@,
            stock.draw_from_stock_len == settings.draw_from_stock_len,
    {
        Stock { cards, draw_from_stock_len: settings.draw_from_stock_len }
    }

    /// How many cards a draw takes: the draw length, or all cards when fewer remain.
    pub open spec fn spec_draw_len(&self) -> int {
        if self.draw_from_stock_len <= self.cards@.len() {
            self.draw_from_stock_len as int
        } else {
            self.cards@.len() as int
        }
    }

    /// Takes the top cards (see `spec_draw_len`) and returns them turned face up, the top
    /// card first.
    pub fn draw(&mut self) -> (drawn: Vec<Card>)
        ensures
            final(self).draw_from_stock_len == old(self).draw_from_stock_len,
            final(self).cards@ == old(self).cards@.take(
                old(self).cards@.len() - old(self).spec_draw_len(),
            ),
            drawn@ == spec_turned(
                old(self).cards@.skip(old(self).cards@.len() - old(self).spec_draw_len()),
                true,
            ),
    {
        let len = if self.draw_from_stock_len <= self.cards.len() {
            self.draw_from_stock_len
        } else {
            self.cards.len()
        };
        if len > 0 {
            let at = self.cards.len() - len;
            let taken = self.cards.split_off(at);
            turn_over(taken, true)
        } else {
            proof {
                assert(old(self).cards@.skip(old(self).cards@.len() as int) =~= Seq::<Card>::empty());
                assert(old(self).cards@.take(old(self).cards@.len() as int) =~= old(self).cards@);
                assert(spec_turned(Seq::<Card>::empty(), true) =~= Seq::<Card>::empty());
            }
            Vec::new()
        }
    }

    /// Puts `cards` on top of the stock.
    pub fn place(&mut self, cards: Vec<Card>)
        requires
            old(self).cards@.len() + cards@.len() <= usize::MAX,
        ensures
            final(self).draw_from_stock_len == old(self).draw_from_stock_len,
            final(self).cards@ == old(self).cards@ + cards@,
    {
        let mut cards = cards;
        append_cards(&mut self.cards, &mut cards);
    }

    /// Activating the stock asks to draw, or to restock when it is empty.
    pub fn activate(&mut self, mode: &mut SelectionMode) -> (action: Option<Action>)
        ensures
            *final(self) == *old(self),
            *final(mode) == *old(mode),
            action == match *old(mode) {
                SelectionMode::Cards(_) => if old(self).cards@.len() == 0 {
                    Some(Action::Restock)
                } else {
                    Some(Action::Draw)
                },
                SelectionMode::Held(_) => None,
            },
    {
        match mode {
            SelectionMode::Cards(_) => if self.cards.len() == 0 {
                Some(Action::Restock)
            } else {
                Some(Action::Draw)
            },
            SelectionMode::Held(_) => None,
        }
    }
}

impl Area for Stock {
    open spec fn spec_id(&self) -> AreaId {
        AreaId::Stock
    }

    /// The stock takes the focus on at most its top card, never with cards held.
    open spec fn spec_accepts_focus(&self, mode: SelectionMode) -> bool {
        mode matches SelectionMode::Cards(len) && len <= 1
    }

    fn id(&self) -> (id: AreaId) {
        AreaId::Stock
    }

    fn accepts_focus(&self, mode: &SelectionMode) -> (b: bool) {
        match mode {
            SelectionMode::Cards(len) => *len <= 1,
            SelectionMode::Held(_) => false,
        }
    }

    fn as_stack<'a>(&'a self, mode: Option<&'a SelectionMode>) -> (stack: Stack<'a>)
        ensures
            stack.cards@ == self.cards@,
            stack.floating@.len() == 0,
            stack.details == self.spec_stack_details(spec_deref_mode(mode)),
    {
        let selection = match mode {
            Some(_) => Some(StackSelection::Cards(1)),
            None => None,
        };
        Stack::with_cards(
            self.cards.as_slice(),
            StackDetails { len: self.cards.len(), visible_len: 2, spread_len: 1, selection },
        )
    }
}

/// The talon: cards drawn from the stock, the top ones fanned out.
#[derive(Debug)]
pub struct Talon {
    pub cards: Vec<Card>,
    pub fanned_len: usize,
}

impl Talon {
    /// The layout of the area as a stack, with the focus in `mode` or without it.
    pub open spec fn spec_stack_details(&self, mode: Option<SelectionMode>) -> StackDetails {
        StackDetails {
            len: self.cards@.len() as usize,
            visible_len: if self.fanned_len < usize::MAX {
                (self.fanned_len + 1) as usize
            } else {
                usize::MAX
            },
            spread_len: self.fanned_len,
            selection: if mode is Some {
                Some(StackSelection::Cards(1))
            } else {
                None
            },
        }
    }

    pub fn new(cards: Vec<Card>, fanned_len: usize) -> (talon: Talon)
        ensures
            talon.cards@ == cards@,
            talon.fanned_len == fanned_len,
    {
        Talon { cards, fanned_len }
    }

    /// Takes all cards, returning them turned face down with the top card first, for the stock;
    /// one card counts as fanned afterwards.
    pub fn flip(&mut self) -> (cards: Vec<Card>)
        ensures
            final(self).cards@.len() == 0,
            final(self).fanned_len == 1,
            cards@ == spec_turned(old(self).cards@, false),
    {
        self.fanned_len = 1;
        let taken = self.cards.split_off(0);
        turn_over(taken, false)
    }

    /// Puts `cards` on top of the talon, all of them fanned; nothing changes when there are
    /// none.
    pub fn place(&mut self, cards: Vec<Card>)
        requires
            old(self).cards@.len() + cards@.len() <= usize::MAX,
        ensures
            final(self).cards@ == old(self).cards@ + cards@,
            final(self).fanned_len == if cards@.len() > 0 {
                cards@.len() as usize
            } else {
                old(self).fanned_len
            },
    {
        if cards.len() > 0 {
            self.fanned_len = cards.len();
            let mut cards = cards;
            append_cards(&mut self.cards, &mut cards);
        } else {
            assert(old(self).cards@ + cards@ =~= old(self).cards@);
        }
    }

    /// How activating takes the area from `old_area` to `new_area` and the selection from
    /// `old_mode` to `new_mode`, reporting `action` (see `activate`).
    pub open spec fn spec_activates(
        old_area: Talon,
        old_mode: SelectionMode,
        new_area: Talon,
        new_mode: SelectionMode,
        action: Option<Action>,
    ) -> bool {
        match old_mode {
            SelectionMode::Cards(_) => {
                &&& new_area.cards@ == old_area.cards@.drop_last()
                &&& new_area.fanned_len == if old_area.fanned_len > 1 {
                    (old_area.fanned_len - 1) as usize
                } else {
                    old_area.fanned_len
                }
                &&& new_mode matches SelectionMode::Held(held) && held.source
                    == AreaId::Talon && held.cards@ == seq![old_area.cards@.last()]
            },
            SelectionMode::Held(held) => {
                &&& new_area.cards@ == old_area.cards@ + held.cards@
                &&& new_area.fanned_len == old_area.fanned_len + held.cards@.len()
                &&& new_mode matches SelectionMode::Cards(len) && len == 1
            },
        }
    }

    /// Activating the talon picks up its top card, or puts the held cards back and selects the
    /// top card.
    pub fn activate(&mut self, mode: &mut SelectionMode) -> (action: Option<Action>)
        requires
            old(self).spec_accepts_focus(*old(mode)),
            old(self).fanned_len + old(mode).spec_held_len() <= usize::MAX,
            old(self).cards@.len() + old(mode).spec_held_len() <= usize::MAX,
        ensures
            action is None,
            Self::spec_activates(*old(self), *old(mode), *final(self), *final(mode), action),
    {
        let mut current = SelectionMode::Cards(1);
        std::mem::swap(&mut current, mode);
        match current {
            SelectionMode::Cards(_) => {
                let at = self.cards.len() - 1;
                let taken = self.cards.split_off(at);
                assert(taken@ =~= seq![old(self).cards@.last()]);
                *mode = SelectionMode::Held(Held { source: AreaId::Talon, cards: taken });
                if self.fanned_len > 1 {
                    self.fanned_len = self.fanned_len - 1;
                }
                None
            },
            SelectionMode::Held(held) => {
                let mut cards = held.cards;
                self.fanned_len = self.fanned_len + cards.len();
                append_cards(&mut self.cards, &mut cards);
                None
            },
        }
    }
}

impl Area for Talon {
    open spec fn spec_id(&self) -> AreaId {
        AreaId::Talon
    }

    /// The talon takes back the card held from it, and the focus on its top card when it has
    /// one.
    open spec fn spec_accepts_focus(&self, mode: SelectionMode) -> bool {
        match mode {
            SelectionMode::Held(held) => held.source == AreaId::Talon,
            SelectionMode::Cards(len) => len == 1 && self.cards@.len() > 0,
        }
    }

    fn id(&self) -> (id: AreaId) {
        AreaId::Talon
    }

    fn accepts_focus(&self, mode: &SelectionMode) -> (b: bool) {
        match mode {
            SelectionMode::Held(held) => held.source == AreaId::Talon,
            SelectionMode::Cards(len) => *len == 1 && self.cards.len() > 0,
        }
    }

    fn as_stack<'a>(&'a self, mode: Option<&'a SelectionMode>) -> (stack: Stack<'a>)
        ensures
            stack.cards@ == self.cards@,
            stack.floating@ == spec_floating(spec_deref_mode(mode)),
            stack.details == self.spec_stack_details(spec_deref_mode(mode)),
    {
        let selection = match mode {
            Some(_) => Some(StackSelection::Cards(1)),
            None => None,
        };
        let visible_len = if self.fanned_len < usize::MAX {
            self.fanned_len + 1
        } else {
            usize::MAX
        };
        let details = StackDetails {
            len: self.cards.len(),
            visible_len,
            spread_len: self.fanned_len,
            selection,
        };
        match mode {
            Some(SelectionMode::Held(held)) => Stack::with_floating_cards(
                self.cards.as_slice(),
                held.cards.as_slice(),
                details,
            ),
            _ => Stack::with_cards(self.cards.as_slice(), details),
        }
    }
}

/// A foundation: the cards of one suit, built up from the Ace.
#[derive(Debug)]
pub struct Foundation {
    pub index: usize,
    pub cards: Vec<Card>,
    pub take_from_foundation: bool,
}

impl Foundation {
    /// The layout of the area as a stack, with the focus in `mode` or without it.
    pub open spec fn spec_stack_details(&self, mode: Option<SelectionMode>) -> StackDetails {
        StackDetails {
            len: self.cards@.len() as usize,
            visible_len: 2,
            spread_len: 1,
            selection: if mode is Some {
                Some(StackSelection::Cards(1))
            } else {
                None
            },
        }
    }

    pub fn new(index: usize, cards: Vec<Card>, settings: &GameSettings) -> (foundation: Foundation)
        ensures
            foundation.index == index,
            foundation.cards@ == cards@,
            foundation.take_from_foundation == settings.take_from_foundation,
    {
        Foundation { index, cards, take_from_foundation: settings.take_from_foundation }
    }

    /// How activating takes the area from `old_area` to `new_area` and the selection from
    /// `old_mode` to `new_mode`, reporting `action` (see `activate`).
    pub open spec fn spec_activates(
        old_area: Foundation,
        old_mode: SelectionMode,
        new_area: Foundation,
        new_mode: SelectionMode,
        action: Option<Action>,
    ) -> bool {
        match old_mode {
            SelectionMode::Cards(n) => {
                &&& action is None
                &&& if old_area.take_from_foundation {
                    &&& new_area.cards@ == old_area.cards@.drop_last()
                    &&& new_mode matches SelectionMode::Held(held) && held.source
                        == AreaId::Foundation(old_area.index) && held.cards@ == seq![
                        old_area.cards@.last(),
                    ]
                } else {
                    &&& new_area.cards@ == old_area.cards@
                    &&& new_mode matches SelectionMode::Cards(m) && m == n
                }
            },
            SelectionMode::Held(held) => {
                &&& new_area.cards@ == old_area.cards@ + held.cards@
                &&& new_mode matches SelectionMode::Cards(len) && len == 1
                &&& action == Some(Action::MoveTo(held.source))
            },
        }
    }

    /// Activating the foundation picks up its top card when the rules allow taking cards from
    /// foundations, or puts the held cards on it, selects its top card and reports where they
    /// came from.
    pub fn activate(&mut self, mode: &mut SelectionMode) -> (action: Option<Action>)
        requires
            old(self).spec_accepts_focus(*old(mode)),
            old(self).cards@.len() + old(mode).spec_held_len() <= usize::MAX,
        ensures
            final(self).index == old(self).index,
            final(self).take_from_foundation == old(self).take_from_foundation,
            Self::spec_activates(*old(self), *old(mode), *final(self), *final(mode), action),
    {
        let mut current = SelectionMode::Cards(1);
        std::mem::swap(&mut current, mode);
        match current {
            SelectionMode::Cards(n) => {
                if self.take_from_foundation {
                    let at = self.cards.len() - 1;
                    let taken = self.cards.split_off(at);
                    assert(taken@ =~= seq![old(self).cards@.last()]);
                    *mode = SelectionMode::Held(
                        Held { source: AreaId::Foundation(self.index), cards: taken },
                    );
                } else {
                    *mode = SelectionMode::Cards(n);
                }
                None
            },
            SelectionMode::Held(held) => {
                let source = held.source;
                let mut cards = held.cards;
                append_cards(&mut self.cards, &mut cards);
                Some(Action::MoveTo(source))
            },
        }
    }
}

impl Area for Foundation {
    open spec fn spec_id(&self) -> AreaId {
        AreaId::Foundation(self.index)
    }

    /// A foundation takes the focus on its top card when it has one, and held cards by
    /// `spec_foundation_takes`.
    open spec fn spec_accepts_focus(&self, mode: SelectionMode) -> bool {
        match mode {
            SelectionMode::Cards(len) => len == 1 && self.cards@.len() > 0,
            SelectionMode::Held(held) => spec_foundation_takes(self.index, self.cards@, held),
        }
    }

    fn id(&self) -> (id: AreaId) {
        AreaId::Foundation(self.index)
    }

    fn accepts_focus(&self, mode: &SelectionMode) -> (b: bool) {
        match mode {
            SelectionMode::Cards(len) => *len == 1 && self.cards.len() > 0,
            SelectionMode::Held(held) => {
                if held.source == AreaId::Foundation(self.index) {
                    true
                } else if held.cards.len() == 1 {
                    let card = held.cards[0];
                    if self.cards.len() > 0 {
                        let top = self.cards[self.cards.len() - 1];
                        self.index == card.suit.index() && top.rank.is_followed_by(card.rank)
                    } else {
                        self.index == card.suit.index() && card.rank.is_ace()
                    }
                } else {
                    false
                }
            },
        }
    }

    fn as_stack<'a>(&'a self, mode: Option<&'a SelectionMode>) -> (stack: Stack<'a>)
        ensures
            stack.cards@ == self.cards@,
            stack.floating@ == spec_floating(spec_deref_mode(mode)),
            stack.details == self.spec_stack_details(spec_deref_mode(mode)),
    {
        let selection = match mode {
            Some(_) => Some(StackSelection::Cards(1)),
            None => None,
        };
        let details = StackDetails { len: self.cards.len(), visible_len: 2, spread_len: 1, selection };
        match mode {
            Some(SelectionMode::Held(held)) => Stack::with_floating_cards(
                self.cards.as_slice(),
                held.cards.as_slice(),
                details,
            ),
            _ => Stack::with_cards(self.cards.as_slice(), details),
        }
    }
}

/// The position of the first face-up card of `cards`, if any.
pub open spec fn spec_first_face_up(cards: Seq<Card>) -> Option<int>
    decreases cards.len(),
{
    if cards.len() == 0 {
        None
    } else {
        match spec_first_face_up(cards.drop_last()) {
            Some(i) => Some(i),
            None => if cards.last().face_up {
                Some(cards.len() - 1)
            } else {
                None
            },
        }
    }
}

/// A tableaux: a pile whose top `revealed_len` cards are face up.
#[derive(Debug)]
pub struct Tableaux {
    pub index: usize,
    pub cards: Vec<Card>,
    pub revealed_len: usize,
}

impl Tableaux {
    /// The layout of the area as a stack, with the focus in `mode` or without it.
    pub open spec fn spec_stack_details(&self, mode: Option<SelectionMode>) -> StackDetails {
        StackDetails {
            len: self.cards@.len() as usize,
            visible_len: self.cards@.len() as usize,
            spread_len: self.revealed_len,
            selection: match mode {
                Some(SelectionMode::Held(held)) => Some(
                    StackSelection::Stack(held.cards@.len() as usize),
                ),
                Some(SelectionMode::Cards(len)) => Some(StackSelection::Cards(len)),
                None => None,
            },
        }
    }

    /// A tableaux on `cards`; the cards from the first face-up one to the top count as revealed,
    /// and all of them when none faces up.
    pub fn new(index: usize, cards: Vec<Card>) -> (tableaux: Tableaux)
        ensures
            tableaux.index == index,
            tableaux.cards@ == cards@,
            tableaux.revealed_len == cards@.len() - match spec_first_face_up(cards@) {
                Some(i) => i,
                None => 0,
            },
            tableaux.wf(),
    {
        let mut position: usize = 0;
        let mut found = false;
        let mut k: usize = 0;
        while k < cards.len()
            invariant
                k <= cards@.len(),
                found ==> spec_first_face_up(cards@.take(k as int)) == Some(position as int),
                !found ==> spec_first_face_up(cards@.take(k as int)) is None && position == 0,
                position <= k,
            decreases cards@.len() - k,
        {
            assert(cards@.take(k + 1).drop_last() =~= cards@.take(k as int));
            if !found && cards[k].face_up {
                found = true;
                position = k;
            }
            k = k + 1;
        }
        assert(cards@.take(cards@.len() as int) =~= cards@);
        let revealed_len = cards.len() - position;
        Tableaux { index, cards, revealed_len }
    }

    /// No more cards are revealed than the tableaux has.
    pub open spec fn wf(&self) -> bool {
        self.revealed_len <= self.cards@.len()
    }

    /// How activating takes the area from `old_area` to `new_area` and the selection from
    /// `old_mode` to `new_mode`, reporting `action` (see `activate`).
    pub open spec fn spec_activates(
        old_area: Tableaux,
        old_mode: SelectionMode,
        new_area: Tableaux,
        new_mode: SelectionMode,
        action: Option<Action>,
    ) -> bool {
        match old_mode {
            SelectionMode::Cards(n) => {
                &&& action is None
                &&& if old_area.revealed_len > 0 {
                    let at = old_area.cards@.len() - n;
                    &&& new_area.cards@ == old_area.cards@.take(at)
                    &&& new_area.revealed_len == old_area.revealed_len - n
                    &&& new_mode matches SelectionMode::Held(held) && held.source
                        == AreaId::Tableaux(old_area.index) && held.cards@
                        == old_area.cards@.skip(at)
                } else {
                    &&& new_mode matches SelectionMode::Cards(m) && m == n
                    &&& if old_area.cards@.len() > 0 {
                        &&& new_area.revealed_len == 1
                        &&& new_area.cards@ == old_area.cards@.update(
                            old_area.cards@.len() - 1,
                            Card { face_up: true, ..old_area.cards@.last() },
                        )
                    } else {
                        &&& new_area.revealed_len == old_area.revealed_len
                        &&& new_area.cards@ == old_area.cards@
                    }
                }
            },
            SelectionMode::Held(held) => {
                &&& new_area.cards@ == old_area.cards@ + held.cards@
                &&& new_area.revealed_len == old_area.revealed_len + held.cards@.len()
                &&& new_mode matches SelectionMode::Cards(len) && len == 1
                &&& action == Some(Action::MoveTo(held.source))
            },
        }
    }

    /// Activating a tableaux picks up the selected top cards when some are face up; otherwise
    /// it turns its top card face up. Held cards are put on it, counted as revealed; its top
    /// card is then selected and where they came from is reported.
    pub fn activate(&mut self, mode: &mut SelectionMode) -> (action: Option<Action>)
        requires
            old(self).wf(),
            old(self).spec_accepts_focus(*old(mode)),
            old(self).cards@.len() + old(mode).spec_held_len() <= usize::MAX,
        ensures
            final(self).wf(),
            final(self).index == old(self).index,
            Self::spec_activates(*old(self), *old(mode), *final(self), *final(mode), action),
    {
        let mut current = SelectionMode::Cards(1);
        std::mem::swap(&mut current, mode);
        match current {
            SelectionMode::Cards(n) => {
                if self.revealed_len > 0 {
                    self.revealed_len = self.revealed_len - n;
                    let at = self.cards.len() - n;
                    let taken = self.cards.split_off(at);
                    *mode = SelectionMode::Held(
                        Held { source: AreaId::Tableaux(self.index), cards: taken },
                    );
                } else {
                    *mode = SelectionMode::Cards(n);
                    let len = self.cards.len();
                    if len > 0 {
                        let mut card = self.cards[len - 1];
                        card.face_up = true;
                        self.cards.set(len - 1, card);
                        self.revealed_len = 1;
                    }
                }
                None
            },
            SelectionMode::Held(held) => {
                let source = held.source;
                let mut cards = held.cards;
                self.revealed_len = self.revealed_len + cards.len();
                append_cards(&mut self.cards, &mut cards);
                Some(Action::MoveTo(source))
            },
        }
    }
}

impl Area for Tableaux {
    open spec fn spec_id(&self) -> AreaId {
        AreaId::Tableaux(self.index)
    }

    /// A tableaux takes the focus on no more than its revealed cards (on its top card when
    /// none is revealed), and held cards by `spec_tableaux_takes`.
    open spec fn spec_accepts_focus(&self, mode: SelectionMode) -> bool {
        match mode {
            SelectionMode::Held(held) => spec_tableaux_takes(self.index, self.cards@, held),
            SelectionMode::Cards(len) => len <= self.revealed_len || (len == 1
                && self.revealed_len == 0 && self.cards@.len() > 0),
        }
    }

    fn id(&self) -> (id: AreaId) {
        AreaId::Tableaux(self.index)
    }

    fn accepts_focus(&self, mode: &SelectionMode) -> (b: bool) {
        match mode {
            SelectionMode::Held(held) => {
                if held.source == AreaId::Tableaux(self.index) {
                    true
                } else if held.cards.len() > 0 {
                    let card = held.cards[0];
                    if self.cards.len() > 0 {
                        let top = self.cards[self.cards.len() - 1];
                        top.face_up && card.rank.is_followed_by(top.rank) && card.color()
                            != top.color()
                    } else {
                        card.rank.is_king()
                    }
                } else {
                    false
                }
            },
            SelectionMode::Cards(len) => *len <= self.revealed_len || (*len == 1
                && self.revealed_len == 0 && self.cards.len() > 0),
        }
    }

    fn as_stack<'a>(&'a self, mode: Option<&'a SelectionMode>) -> (stack: Stack<'a>)
        ensures
            stack.cards@ == self.cards@,
            stack.floating@ == spec_floating(spec_deref_mode(mode)),
            stack.details == self.spec_stack_details(spec_deref_mode(mode)),
    {
        let selection = match mode {
            Some(SelectionMode::Held(held)) => Some(StackSelection::Stack(held.cards.len())),
            Some(SelectionMode::Cards(len)) => Some(StackSelection::Cards(*len)),
            None => None,
        };
        let details = StackDetails {
            len: self.cards.len(),
            visible_len: self.cards.len(),
            spread_len: self.revealed_len,
            selection,
        };
        match mode {
            Some(SelectionMode::Held(held)) => Stack::with_floating_cards(
                self.cards.as_slice(),
                held.cards.as_slice(),
                details,
            ),
            _ => Stack::with_cards(self.cards.as_slice(), details),
        }
    }
}

/// The ids of the areas from left to right: the stock, the talon, four foundations and seven
/// tableaux.
pub open spec fn spec_standard_ids() -> Seq<AreaId> {
    Seq::new(
        13,
        |k: int|
            if k == 0 {
                AreaId::Stock
            } else if k == 1 {
                AreaId::Talon
            } else if k < 6 {
                AreaId::Foundation((k - 2) as usize)
            } else {
                AreaId::Tableaux((k - 6) as usize)
            },
    )
}

/// Whether `id` names one of the areas of a game.
pub open spec fn spec_valid_id(id: AreaId) -> bool {
    match id {
        AreaId::Foundation(index) => index < 4,
        AreaId::Tableaux(index) => index < 7,
        _ => true,
    }
}

/// The position of `id` among the standard ids.
pub open spec fn spec_id_position(id: AreaId) -> int {
    match id {
        AreaId::Stock => 0,
        AreaId::Talon => 1,
        AreaId::Foundation(index) => 2 + index,
        AreaId::Tableaux(index) => 6 + index,
    }
}

/// The position `k` steps from `start` among the thirteen areas, to the right or to the left,
/// wrapping around.
pub open spec fn spec_step(start: int, k: int, right: bool) -> int {
    if right {
        (start + k) % 13
    } else {
        (start + 13 - k) % 13
    }
}

/// An area of a game, borrowed.
#[derive(Debug)]
pub enum AreaRef<'a> {
    Stock(&'a Stock),
    Talon(&'a Talon),
    Foundation(&'a Foundation),
    Tableaux(&'a Tableaux),
}

/// The areas of a game and their ids from left to right.
#[derive(Debug)]
pub struct KlondikeGameAreas {
    pub stock: Stock,
    pub talon: Talon,
    pub foundation: Vec<Foundation>,
    pub tableaux: Vec<Tableaux>,
    pub ids: Vec<AreaId>,
}

impl KlondikeGameAreas {
    /// Four foundations and seven tableaux, each at the position of its index, and the
    /// standard ids.
    pub open spec fn wf(&self) -> bool {
        &&& self.foundation@.len() == 4
        &&& self.tableaux@.len() == 7
        &&& forall|i: int| 0 <= i < 4 ==> (#[trigger] self.foundation@[i]).index == i
        &&& forall|i: int|
            0 <= i < 7 ==> (#[trigger] self.tableaux@[i]).index == i && self.tableaux@[i].wf()
        &&& self.ids@ == spec_standard_ids()
    }

    /// Whether the area `id` takes the focus in `mode`.
    pub open spec fn spec_accepts(&self, id: AreaId, mode: SelectionMode) -> bool {
        match id {
            AreaId::Stock => self.stock.spec_accepts_focus(mode),
            AreaId::Talon => self.talon.spec_accepts_focus(mode),
            AreaId::Foundation(index) => self.foundation@[index as int].spec_accepts_focus(mode),
            AreaId::Tableaux(index) => self.tableaux@[index as int].spec_accepts_focus(mode),
        }
    }

    /// The cards of the area `id`.
    pub open spec fn spec_cards(&self, id: AreaId) -> Seq<Card> {
        match id {
            AreaId::Stock => self.stock.cards@,
            AreaId::Talon => self.talon.cards@,
            AreaId::Foundation(index) => self.foundation@[index as int].cards@,
            AreaId::Tableaux(index) => self.tableaux@[index as int].cards@,
        }
    }

    /// The layout of the area `id` as a stack.
    pub open spec fn spec_stack_details(&self, id: AreaId, mode: Option<SelectionMode>) -> StackDetails {
        match id {
            AreaId::Stock => self.stock.spec_stack_details(mode),
            AreaId::Talon => self.talon.spec_stack_details(mode),
            AreaId::Foundation(index) => self.foundation@[index as int].spec_stack_details(mode),
            AreaId::Tableaux(index) => self.tableaux@[index as int].spec_stack_details(mode),
        }
    }

    /// The area `id`.
    fn area(&self, area_id: AreaId) -> (area: AreaRef)
        requires
            self.wf(),
            spec_valid_id(area_id),
        ensures
            match area_id {
                AreaId::Stock => area == AreaRef::Stock(&self.stock),
                AreaId::Talon => area == AreaRef::Talon(&self.talon),
                AreaId::Foundation(index) => area == AreaRef::Foundation(
                    &self.foundation@[index as int],
                ),
                AreaId::Tableaux(index) => area == AreaRef::Tableaux(&self.tableaux@[index as int]),
            },
    {
        match area_id {
            AreaId::Stock => AreaRef::Stock(&self.stock),
            AreaId::Talon => AreaRef::Talon(&self.talon),
            AreaId::Foundation(index) => AreaRef::Foundation(&self.foundation[index]),
            AreaId::Tableaux(index) => AreaRef::Tableaux(&self.tableaux[index]),
        }
    }

    /// Whether the area `id` takes the focus in `mode`.
    fn accepts_focus(&self, area_id: AreaId, mode: &SelectionMode) -> (b: bool)
        requires
            self.wf(),
            spec_valid_id(area_id),
        ensures
            b == self.spec_accepts(area_id, *mode),
    {
        match self.area(area_id) {
            AreaRef::Stock(area) => area.accepts_focus(mode),
            AreaRef::Talon(area) => area.accepts_focus(mode),
            AreaRef::Foundation(area) => area.accepts_focus(mode),
            AreaRef::Tableaux(area) => area.accepts_focus(mode),
        }
    }
}

/// A game in progress.
#[derive(Debug)]
pub struct KlondikeGame {
    pub areas: KlondikeGameAreas,
    pub selection: Selection,
}

impl KlondikeGame {
    /// Well-formed areas and a selection on one of them.
    pub open spec fn wf(&self) -> bool {
        &&& self.areas.wf()
        &&& spec_valid_id(self.selection.target)
    }

    /// The selection after trying to move it to `id`: the focus moves (see `spec_moved_mode`)
    /// when the area takes it.
    pub open spec fn spec_try_move(&self, id: AreaId) -> (AreaId, SelectionMode) {
        let moved = spec_moved_mode(self.selection.mode);
        if self.areas.spec_accepts(id, moved) {
            (id, moved)
        } else {
            (self.selection.target, self.selection.mode)
        }
    }

    /// The first area, `k` or more steps from the selected one to the right or the left but
    /// fewer than thirteen, that takes the focus in `mode`.
    pub open spec fn spec_scan(&self, mode: SelectionMode, k: int, right: bool) -> Option<AreaId>
        decreases 13 - k,
    {
        if k < 1 || k >= 13 {
            None
        } else {
            let id = spec_standard_ids()[spec_step(spec_id_position(self.selection.target), k, right)];
            if self.areas.spec_accepts(id, mode) {
                Some(id)
            } else {
                self.spec_scan(mode, k + 1, right)
            }
        }
    }

    /// The area `id`.
    pub fn area(&self, area_id: AreaId) -> (area: AreaRef)
        requires
            self.wf(),
            spec_valid_id(area_id),
        ensures
            match area_id {
                AreaId::Stock => area == AreaRef::Stock(&self.areas.stock),
                AreaId::Talon => area == AreaRef::Talon(&self.areas.talon),
                AreaId::Foundation(index) => area == AreaRef::Foundation(
                    &self.areas.foundation@[index as int],
                ),
                AreaId::Tableaux(index) => area == AreaRef::Tableaux(
                    &self.areas.tableaux@[index as int],
                ),
            },
    {
        self.areas.area(area_id)
    }

    /// The area `id` as a stack, with the focus when it is selected.
    pub fn stack(&self, area_id: AreaId) -> (stack: Stack)
        requires
            self.wf(),
            spec_valid_id(area_id),
        ensures
            stack.cards@ == self.areas.spec_cards(area_id),
            stack.details == self.areas.spec_stack_details(
                area_id,
                if self.selection.target == area_id {
                    Some(self.selection.mode)
                } else {
                    None
                },
            ),
            area_id != AreaId::Stock ==> stack.floating@ == spec_floating(
                if self.selection.target == area_id {
                    Some(self.selection.mode)
                } else {
                    None
                },
            ),
            area_id == AreaId::Stock ==> stack.floating@.len() == 0,
    {
        let mode = if self.selection.matches(area_id) {
            Some(&self.selection.mode)
        } else {
            None
        };
        match self.areas.area(area_id) {
            AreaRef::Stock(area) => area.as_stack(mode),
            AreaRef::Talon(area) => area.as_stack(mode),
            AreaRef::Foundation(area) => area.as_stack(mode),
            AreaRef::Tableaux(area) => area.as_stack(mode),
        }
    }

    /// Moves the selection to `area_id` if the area takes the moved focus.
    fn move_to(&mut self, area_id: AreaId)
        requires
            old(self).wf(),
            spec_valid_id(area_id),
        ensures
            final(self).wf(),
            final(self).areas == old(self).areas,
            (final(self).selection.target, final(self).selection.mode) == old(self).spec_try_move(
                area_id,
            ),
    {
        let accepted = match &self.selection.mode {
            SelectionMode::Held(_) => self.areas.accepts_focus(area_id, &self.selection.mode),
            SelectionMode::Cards(_) => {
                let one = SelectionMode::Cards(1);
                self.areas.accepts_focus(area_id, &one)
            },
        };
        if accepted {
            self.selection.target = area_id;
            if let SelectionMode::Cards(_) = self.selection.mode {
                self.selection.mode = SelectionMode::Cards(1);
            }
        }
    }

    /// Moves the selection to the stock, if it takes the focus.
    pub fn move_to_stock(&mut self)
        requires
            old(self).wf(),
        ensures
            final(self).wf(),
            final(self).areas == old(self).areas,
            (final(self).selection.target, final(self).selection.mode) == old(self).spec_try_move(
                AreaId::Stock,
            ),
    {
        self.move_to(AreaId::Stock);
    }

    /// Moves the selection to the talon, if it takes the focus.
    pub fn move_to_talon(&mut self)
        requires
            old(self).wf(),
        ensures
            final(self).wf(),
            final(self).areas == old(self).areas,
            (final(self).selection.target, final(self).selection.mode) == old(self).spec_try_move(
                AreaId::Talon,
            ),
    {
        self.move_to(AreaId::Talon);
    }

    /// Moves the selection to foundation `index`, if it takes the focus.
    pub fn move_to_foundation(&mut self, index: usize)
        requires
            old(self).wf(),
            index < 4,
        ensures
            final(self).wf(),
            final(self).areas == old(self).areas,
            (final(self).selection.target, final(self).selection.mode) == old(self).spec_try_move(
                AreaId::Foundation(index),
            ),
    {
        self.move_to(AreaId::Foundation(index));
    }

    /// Moves the selection to tableaux `index`, if it takes the focus.
    pub fn move_to_tableaux(&mut self, index: usize)
        requires
            old(self).wf(),
            index < 7,
        ensures
            final(self).wf(),
            final(self).areas == old(self).areas,
            (final(self).selection.target, final(self).selection.mode) == old(self).spec_try_move(
                AreaId::Tableaux(index),
            ),
    {
        self.move_to(AreaId::Tableaux(index));
    }

    /// The first area from `k` steps on that takes the focus in `mode`.
    fn scan(&self, mode: &SelectionMode, k: usize, right: bool) -> (found: Option<AreaId>)
        requires
            self.wf(),
            1 <= k <= 13,
        ensures
            found == self.spec_scan(*mode, k as int, right),
            found matches Some(id) ==> spec_valid_id(id),
        decreases 13 - k,
    {
        if k >= 13 {
            return None;
        }
        let start: usize = match self.selection.target {
            AreaId::Stock => 0,
            AreaId::Talon => 1,
            AreaId::Foundation(index) => 2 + index,
            AreaId::Tableaux(index) => 6 + index,
        };
        let position = if right {
            (start + k) % 13
        } else {
            (start + 13 - k) % 13
        };
        let id = self.areas.ids[position];
        assert(id == spec_standard_ids()[position as int]);
        if self.areas.accepts_focus(id, mode) {
            Some(id)
        } else {
            self.scan(mode, k + 1, right)
        }
    }

    /// Moves the selection to the nearest area on the left, wrapping around, that takes the
    /// moved focus.
    pub fn move_left(&mut self)
        requires
            old(self).wf(),
        ensures
            final(self).wf(),
            final(self).areas == old(self).areas,
            match old(self).spec_scan(spec_moved_mode(old(self).selection.mode), 1, false) {
                Some(id) => final(self).selection.target == id && final(self).selection.mode
                    == spec_moved_mode(old(self).selection.mode),
                None => final(self).selection == old(self).selection,
            },
    {
        let found = match &self.selection.mode {
            SelectionMode::Held(_) => self.scan(&self.selection.mode, 1, false),
            SelectionMode::Cards(_) => {
                let one = SelectionMode::Cards(1);
                self.scan(&one, 1, false)
            },
        };
        if let Some(id) = found {
            self.selection.target = id;
            if let SelectionMode::Cards(_) = self.selection.mode {
                self.selection.mode = SelectionMode::Cards(1);
            }
        }
    }

    /// Moves the selection to the nearest area on the right, wrapping around, that takes the
    /// moved focus.
    pub fn move_right(&mut self)
        requires
            old(self).wf(),
        ensures
            final(self).wf(),
            final(self).areas == old(self).areas,
            match old(self).spec_scan(spec_moved_mode(old(self).selection.mode), 1, true) {
                Some(id) => final(self).selection.target == id && final(self).selection.mode
                    == spec_moved_mode(old(self).selection.mode),
                None => final(self).selection == old(self).selection,
            },
    {
        let found = match &self.selection.mode {
            SelectionMode::Held(_) => self.scan(&self.selection.mode, 1, true),
            SelectionMode::Cards(_) => {
                let one = SelectionMode::Cards(1);
                self.scan(&one, 1, true)
            },
        };
        if let Some(id) = found {
            self.selection.target = id;
            if let SelectionMode::Cards(_) = self.selection.mode {
                self.selection.mode = SelectionMode::Cards(1);
            }
        }
    }

    /// Selects one more card of the selected area, if it takes that focus.
    pub fn move_up(&mut self)
        requires
            old(self).wf(),
            !(old(self).selection.mode matches SelectionMode::Cards(len) && len == usize::MAX),
        ensures
            final(self).wf(),
            final(self).areas == old(self).areas,
            final(self).selection.target == old(self).selection.target,
            match old(self).selection.mode {
                SelectionMode::Cards(len) => if old(self).areas.spec_accepts(
                    old(self).selection.target,
                    SelectionMode::Cards((len + 1) as usize),
                ) {
                    final(self).selection.mode == SelectionMode::Cards((len + 1) as usize)
                } else {
                    final(self).selection.mode == old(self).selection.mode
                },
                SelectionMode::Held(_) => final(self).selection.mode == old(self).selection.mode,
            },
    {
        if let SelectionMode::Cards(len) = self.selection.mode {
            let mode = SelectionMode::Cards(len + 1);
            if self.areas.accepts_focus(self.selection.target, &mode) {
                self.selection.mode = mode;
            }
        }
    }

    /// Selects one card fewer of the selected area, keeping at least one, if it takes that
    /// focus.
    pub fn move_down(&mut self)
        requires
            old(self).wf(),
        ensures
            final(self).wf(),
            final(self).areas == old(self).areas,
            final(self).selection.target == old(self).selection.target,
            match old(self).selection.mode {
                SelectionMode::Cards(len) => if len > 1 && old(self).areas.spec_accepts(
                    old(self).selection.target,
                    SelectionMode::Cards((len - 1) as usize),
                ) {
                    final(self).selection.mode == SelectionMode::Cards((len - 1) as usize)
                } else {
                    final(self).selection.mode == old(self).selection.mode
                },
                SelectionMode::Held(_) => final(self).selection.mode == old(self).selection.mode,
            },
    {
        if let SelectionMode::Cards(len) = self.selection.mode {
            if len > 1 {
                let mode = SelectionMode::Cards(len - 1);
                if self.areas.accepts_focus(self.selection.target, &mode) {
                    self.selection.mode = mode;
                }
            }
        }
    }
}

impl KlondikeGame {
    /// Whether the selected area can be activated: it takes the focus as it is, and no pile
    /// would grow past the largest count.
    pub open spec fn spec_can_activate(&self) -> bool {
        let mode = self.selection.mode;
        let h = mode.spec_held_len();
        &&& self.areas.spec_accepts(self.selection.target, mode)
        &&& self.areas.spec_cards(self.selection.target).len() + h <= usize::MAX
        &&& self.areas.talon.fanned_len + h <= usize::MAX
        &&& self.areas.talon.cards@.len() + self.areas.stock.cards@.len() <= usize::MAX
    }

    /// How activating the selected area changes the game from `old` to `new`. The stock asks
    /// to draw its top cards onto the talon, face up, or, when empty, to take the talon back,
    /// turned over; the other areas change as their own activation says. The selection stays
    /// on the same area.
    pub open spec fn spec_activated(old: &KlondikeGame, new: &KlondikeGame) -> bool {
        let old_areas = old.areas;
        let new_areas = new.areas;
        let mode = old.selection.mode;
        &&& new.selection.target == old.selection.target
        &&& new_areas.ids == old_areas.ids
        &&& match old.selection.target {
            AreaId::Stock => {
                &&& new.selection.mode == mode
                &&& new_areas.foundation == old_areas.foundation
                &&& new_areas.tableaux == old_areas.tableaux
                &&& new_areas.stock.draw_from_stock_len == old_areas.stock.draw_from_stock_len
                &&& if mode is Held {
                    new_areas.stock == old_areas.stock && new_areas.talon == old_areas.talon
                } else if old_areas.stock.cards@.len() == 0 {
                    &&& new_areas.stock.cards@ == spec_turned(old_areas.talon.cards@, false)
                    &&& new_areas.talon.cards@.len() == 0
                    &&& new_areas.talon.fanned_len == 1
                } else {
                    let n = old_areas.stock.spec_draw_len();
                    let at = old_areas.stock.cards@.len() - n;
                    &&& new_areas.stock.cards@ == old_areas.stock.cards@.take(at)
                    &&& new_areas.talon.cards@ == old_areas.talon.cards@ + spec_turned(
                        old_areas.stock.cards@.skip(at),
                        true,
                    )
                    &&& new_areas.talon.fanned_len == if n > 0 {
                        n as usize
                    } else {
                        old_areas.talon.fanned_len
                    }
                }
            },
            AreaId::Talon => {
                &&& Talon::spec_activates(
                    old_areas.talon,
                    mode,
                    new_areas.talon,
                    new.selection.mode,
                    None,
                )
                &&& new_areas.stock == old_areas.stock
                &&& new_areas.foundation == old_areas.foundation
                &&& new_areas.tableaux == old_areas.tableaux
            },
            AreaId::Foundation(index) => {
                &&& exists|action: Option<Action>|
                    #[trigger] Foundation::spec_activates(
                        old_areas.foundation@[index as int],
                        mode,
                        new_areas.foundation@[index as int],
                        new.selection.mode,
                        action,
                    )
                &&& new_areas.foundation@[index as int].index == index
                &&& new_areas.foundation@ == old_areas.foundation@.update(
                    index as int,
                    new_areas.foundation@[index as int],
                )
                &&& new_areas.stock == old_areas.stock
                &&& new_areas.talon == old_areas.talon
                &&& new_areas.tableaux == old_areas.tableaux
            },
            AreaId::Tableaux(index) => {
                &&& exists|action: Option<Action>|
                    #[trigger] Tableaux::spec_activates(
                        old_areas.tableaux@[index as int],
                        mode,
                        new_areas.tableaux@[index as int],
                        new.selection.mode,
                        action,
                    )
                &&& new_areas.tableaux@[index as int].index == index
                &&& new_areas.tableaux@[index as int].wf()
                &&& new_areas.tableaux@ == old_areas.tableaux@.update(
                    index as int,
                    new_areas.tableaux@[index as int],
                )
                &&& new_areas.stock == old_areas.stock
                &&& new_areas.talon == old_areas.talon
                &&& new_areas.foundation == old_areas.foundation
            },
        }
    }

    /// Activates the selected area (see `spec_activated`). Every card stays in play.
    pub fn activate(&mut self)
        requires
            old(self).wf(),
            old(self).spec_can_activate(),
        ensures
            final(self).wf(),
            KlondikeGame::spec_activated(old(self), final(self)),
            final(self).spec_cards_in_play() == old(self).spec_cards_in_play(),
    {
        let action = match self.selection.target {
            AreaId::Stock => self.areas.stock.activate(&mut self.selection.mode),
            AreaId::Talon => self.areas.talon.activate(&mut self.selection.mode),
            AreaId::Foundation(index) => self.areas.foundation[index].activate(
                &mut self.selection.mode,
            ),
            AreaId::Tableaux(index) => self.areas.tableaux[index].activate(
                &mut self.selection.mode,
            ),
        };
        match action {
            Some(Action::Draw) => {
                let cards = self.areas.stock.draw();
                self.areas.talon.place(cards);
            },
            Some(Action::Restock) => {
                let cards = self.areas.talon.flip();
                self.areas.stock.place(cards);
            },
            _ => {},
        }
        proof {
            lemma_activate_keeps_cards(*old(self), *self);
        }
    }

    /// Deals a game from `deck` (its top is the end of the sequence): tableaux `i` receives the
    /// top `i` cards and one more turned face up; the stock takes the rest, leaving the deck
    /// empty. The talon and the foundations start empty and the top card of the stock is
    /// selected.
    pub fn new(deck: &mut Deck, settings: &GameSettings) -> (game: KlondikeGame)
        ensures
            game.wf(),
            forall|i: int|
                0 <= i < 7 ==> (#[trigger] game.areas.tableaux@[i]).cards@ == spec_tableaux_pile(
                    spec_deck_before_pile(old(deck).cards@, i),
                    i,
                ) && game.areas.tableaux@[i].revealed_len == game.areas.tableaux@[i].cards@.len()
                    - match spec_first_face_up(game.areas.tableaux@[i].cards@) {
                    Some(p) => p,
                    None => 0,
                },
            game.areas.stock.cards@ == spec_deck_before_pile(old(deck).cards@, 7),
            game.areas.stock.draw_from_stock_len == settings.draw_from_stock_len,
            game.areas.talon.cards@.len() == 0,
            game.areas.talon.fanned_len == 0,
            forall|i: int|
                0 <= i < 4 ==> (#[trigger] game.areas.foundation@[i]).cards@.len() == 0
                    && game.areas.foundation@[i].take_from_foundation
                    == settings.take_from_foundation,
            game.selection.target == AreaId::Stock,
            game.selection.mode matches SelectionMode::Cards(len) && len == 1,
            final(deck).cards@.len() == 0,
    {
        let ghost full_deck = deck.cards@;
        let mut ids: Vec<AreaId> = Vec::new();
        ids.push(AreaId::Stock);
        ids.push(AreaId::Talon);
        let mut f: usize = 0;
        while f < 4
            invariant
                f <= 4,
                ids@ == spec_standard_ids().take(2 + f),
            decreases 4 - f,
        {
            ids.push(AreaId::Foundation(f));
            f = f + 1;
            assert(ids@ =~= spec_standard_ids().take(2 + f));
        }
        let mut t: usize = 0;
        while t < 7
            invariant
                t <= 7,
                ids@ == spec_standard_ids().take(6 + t),
            decreases 7 - t,
        {
            ids.push(AreaId::Tableaux(t));
            t = t + 1;
            assert(ids@ =~= spec_standard_ids().take(6 + t));
        }
        assert(ids@ =~= spec_standard_ids());
        let mut tableaux: Vec<Tableaux> = Vec::new();
        let mut i: usize = 0;
        while i < 7
            invariant
                i <= 7,
                tableaux@.len() == i,
                deck.cards@ == spec_deck_before_pile(full_deck, i as int),
                forall|j: int|
                    0 <= j < i ==> (#[trigger] tableaux@[j]).cards@ == spec_tableaux_pile(
                        spec_deck_before_pile(full_deck, j),
                        j,
                    ) && tableaux@[j].revealed_len == tableaux@[j].cards@.len() - match spec_first_face_up(
                        tableaux@[j].cards@,
                    ) {
                        Some(p) => p,
                        None => 0,
                    } && tableaux@[j].index == j && tableaux@[j].wf(),
            decreases 7 - i,
        {
            let ghost before = deck.cards@;
            let mut cards = deck.deal(i);
            match deck.deal_one() {
                Some(card) => cards.push(card.face_up()),
                None => {},
            }
            proof {
                assert(cards@ =~= spec_tableaux_pile(before, i as int));
                assert(deck.cards@ =~= super::klondike::spec_after_pile(before, i as int));
            }
            tableaux.push(Tableaux::new(i, cards));
            i = i + 1;
        }
        let talon = Talon::new(Vec::new(), 0);
        let stock = Stock::new(deck.deal_rest(), settings);
        let mut foundation: Vec<Foundation> = Vec::new();
        let mut k: usize = 0;
        while k < 4
            invariant
                k <= 4,
                foundation@.len() == k,
                forall|j: int|
                    0 <= j < k ==> (#[trigger] foundation@[j]).cards@.len() == 0
                        && foundation@[j].index == j && foundation@[j].take_from_foundation
                        == settings.take_from_foundation,
            decreases 4 - k,
        {
            foundation.push(Foundation::new(k, Vec::new(), settings));
            k = k + 1;
        }
        KlondikeGame {
            areas: KlondikeGameAreas { stock, talon, foundation, tableaux, ids },
            selection: Selection::new(),
        }
    }
}

/// Picking up the top card of the talon and activating the talon again puts the card back: the
/// talon holds its cards as before and its top card is selected.
pub proof fn lemma_talon_pick_up_put_back(
    t0: Talon,
    m0: SelectionMode,
    t1: Talon,
    m1: SelectionMode,
    t2: Talon,
    m2: SelectionMode,
)
    requires
        m0 is Cards,
        t0.cards@.len() > 0,
        Talon::spec_activates(t0, m0, t1, m1, None),
        Talon::spec_activates(t1, m1, t2, m2, None),
    ensures
        t2.cards@ == t0.cards@,
        m2 matches SelectionMode::Cards(len) && len == 1,
{
    assert(t0.cards@.drop_last().push(t0.cards@.last()) =~= t0.cards@);
    assert(t0.cards@.drop_last() + seq![t0.cards@.last()] =~= t0.cards@);
}

/// Picking up the top card of a foundation (where the rules allow it) and activating the
/// foundation again puts the card back, selects its top card and reports the foundation itself
/// as where the card came from.
pub proof fn lemma_foundation_pick_up_put_back(
    f0: Foundation,
    m0: SelectionMode,
    a0: Option<Action>,
    f1: Foundation,
    m1: SelectionMode,
    a1: Option<Action>,
    f2: Foundation,
)
    requires
        m0 is Cards,
        f0.take_from_foundation,
        f0.cards@.len() > 0,
        Foundation::spec_activates(f0, m0, f1, m1, a0),
        f1.index == f0.index,
        exists|m2: SelectionMode| #[trigger] Foundation::spec_activates(f1, m1, f2, m2, a1),
    ensures
        f2.cards@ == f0.cards@,
        a1 == Some(Action::MoveTo(AreaId::Foundation(f0.index))),
{
    assert(f0.cards@.drop_last() + seq![f0.cards@.last()] =~= f0.cards@);
}

/// Picking up the top `n` revealed cards of a tableaux and activating the tableaux again puts
/// them back: the tableaux holds its cards as before, with as many revealed.
pub proof fn lemma_tableaux_pick_up_put_back(
    t0: Tableaux,
    m0: SelectionMode,
    a0: Option<Action>,
    t1: Tableaux,
    m1: SelectionMode,
    a1: Option<Action>,
    t2: Tableaux,
    m2: SelectionMode,
)
    requires
        t0.wf(),
        t0.revealed_len > 0,
        m0 matches SelectionMode::Cards(n) && n <= t0.revealed_len,
        Tableaux::spec_activates(t0, m0, t1, m1, a0),
        Tableaux::spec_activates(t1, m1, t2, m2, a1),
    ensures
        t2.cards@ == t0.cards@,
        t2.revealed_len == t0.revealed_len,
        m2 matches SelectionMode::Cards(len) && len == 1,
{
    if let SelectionMode::Cards(n) = m0 {
        let at = t0.cards@.len() - n;
        assert(t0.cards@.take(at) + t0.cards@.skip(at) =~= t0.cards@);
    }
}

/// A card as it counts in play, whichever way it faces.
pub open spec fn spec_face_blind(card: Card) -> Card {
    Card { face_up: false, ..card }
}

/// The cards of `cards` as a multiset, whichever way each faces.
pub open spec fn spec_card_faces(cards: Seq<Card>) -> Multiset<Card> {
    cards.map_values(|card: Card| spec_face_blind(card)).to_multiset()
}

/// The cards of all `piles`, whichever way each faces.
pub open spec fn spec_piles_faces(piles: Seq<Seq<Card>>) -> Multiset<Card>
    decreases piles.len(),
{
    if piles.len() == 0 {
        Multiset::empty()
    } else {
        spec_piles_faces(piles.drop_last()).add(spec_card_faces(piles.last()))
    }
}

/// The cards of two sequences together are those of each.
proof fn lemma_faces_concat(a: Seq<Card>, b: Seq<Card>)
    ensures
        spec_card_faces(a + b) == spec_card_faces(a).add(spec_card_faces(b)),
{
    let f = |card: Card| spec_face_blind(card);
    assert((a + b).map_values(f) =~= a.map_values(f) + b.map_values(f));
    vstd::seq_lib::lemma_multiset_commutative(a.map_values(f), b.map_values(f));
}

/// Turning cards over keeps them.
proof fn lemma_faces_turned(cards: Seq<Card>, face_up: bool)
    ensures
        spec_card_faces(spec_turned(cards, face_up)) == spec_card_faces(cards),
{
    let f = |card: Card| spec_face_blind(card);
    assert(spec_turned(cards, face_up).map_values(f) =~= cards.map_values(f).reverse());
    cards.map_values(f).lemma_reverse_to_multiset();
}

/// Splitting a sequence keeps its cards.
proof fn lemma_faces_split(cards: Seq<Card>, at: int)
    requires
        0 <= at <= cards.len(),
    ensures
        spec_card_faces(cards) == spec_card_faces(cards.take(at)).add(
            spec_card_faces(cards.skip(at)),
        ),
{
    assert(cards.take(at) + cards.skip(at) =~= cards);
    lemma_faces_concat(cards.take(at), cards.skip(at));
}

/// Replacing one pile changes the cards of all piles by that pile's cards.
proof fn lemma_piles_update(piles: Seq<Seq<Card>>, i: int, pile: Seq<Card>)
    requires
        0 <= i < piles.len(),
    ensures
        spec_piles_faces(piles.update(i, pile)).add(spec_card_faces(piles[i])) == spec_piles_faces(
            piles,
        ).add(spec_card_faces(pile)),
    decreases piles.len(),
{
    let updated = piles.update(i, pile);
    let lhs = spec_piles_faces(updated).add(spec_card_faces(piles[i]));
    let rhs = spec_piles_faces(piles).add(spec_card_faces(pile));
    if i == piles.len() - 1 {
        assert(updated.drop_last() =~= piles.drop_last());
        let rest = spec_piles_faces(piles.drop_last());
        assert(spec_piles_faces(updated) == rest.add(spec_card_faces(pile)));
        assert(spec_piles_faces(piles) == rest.add(spec_card_faces(piles[i])));
        assert(lhs =~= rhs) by {
            assert forall|c: Card| lhs.count(c) == rhs.count(c) by {}
        }
    } else {
        assert(updated.drop_last() =~= piles.drop_last().update(i, pile));
        lemma_piles_update(piles.drop_last(), i, pile);
        let last = spec_card_faces(piles.last());
        assert(updated.last() == piles.last());
        let inner = spec_piles_faces(piles.drop_last().update(i, pile));
        assert(spec_piles_faces(updated) == inner.add(last));
        assert(spec_piles_faces(piles) == spec_piles_faces(piles.drop_last()).add(last));
        assert(inner.add(spec_card_faces(piles[i])) == spec_piles_faces(piles.drop_last()).add(
            spec_card_faces(pile),
        ));
        assert(lhs =~= rhs) by {
            assert forall|c: Card| lhs.count(c) == rhs.count(c) by {
                assert(inner.add(spec_card_faces(piles[i])).count(c) == spec_piles_faces(
                    piles.drop_last(),
                ).add(spec_card_faces(pile)).count(c));
            }
        }
    }
}

/// The cards of each foundation, in order.
pub open spec fn spec_foundation_piles(areas: KlondikeGameAreas) -> Seq<Seq<Card>> {
    areas.foundation@.map_values(|f: Foundation| f.cards@)
}

/// The cards of each tableaux, in order.
pub open spec fn spec_tableaux_piles(areas: KlondikeGameAreas) -> Seq<Seq<Card>> {
    areas.tableaux@.map_values(|t: Tableaux| t.cards@)
}

impl KlondikeGame {
    /// Every card of the game, whichever way it faces: those of the stock, the talon, the
    /// foundations and the tableaux, and those held by the selection.
    pub open spec fn spec_cards_in_play(&self) -> Multiset<Card> {
        spec_card_faces(self.areas.stock.cards@).add(spec_card_faces(self.areas.talon.cards@)).add(
            spec_piles_faces(spec_foundation_piles(self.areas)),
        ).add(spec_piles_faces(spec_tableaux_piles(self.areas))).add(
            spec_card_faces(spec_floating(Some(self.selection.mode))),
        )
    }
}

/// Activating the selected area keeps every card in play: no card is created, lost or
/// duplicated, whichever way cards are turned; and the selection stays on the same area.
pub proof fn lemma_activate_keeps_cards(old: KlondikeGame, new: KlondikeGame)
    requires
        old.wf(),
        old.spec_can_activate(),
        KlondikeGame::spec_activated(&old, &new),
    ensures
        new.spec_cards_in_play() == old.spec_cards_in_play(),
        new.selection.target == old.selection.target,
{
    broadcast use vstd::multiset::group_multiset_axioms;
    let a = old.areas;
    let b = new.areas;
    let mode = old.selection.mode;
    let stock0 = spec_card_faces(a.stock.cards@);
    let talon0 = spec_card_faces(a.talon.cards@);
    let found0 = spec_piles_faces(spec_foundation_piles(a));
    let tab0 = spec_piles_faces(spec_tableaux_piles(a));
    let held0 = spec_card_faces(spec_floating(Some(mode)));
    let stock1 = spec_card_faces(b.stock.cards@);
    let talon1 = spec_card_faces(b.talon.cards@);
    let found1 = spec_piles_faces(spec_foundation_piles(b));
    let tab1 = spec_piles_faces(spec_tableaux_piles(b));
    let held1 = spec_card_faces(spec_floating(Some(new.selection.mode)));
    let empty = Seq::<Card>::empty();
    assert(spec_card_faces(empty) =~= Multiset::empty()) by {
        lemma_empty_to_multiset(empty.map_values(|card: Card| spec_face_blind(card)));
    }
    match old.selection.target {
        AreaId::Stock => {
            assert(found1 == found0 && tab1 == tab0);
            if mode is Held {
            } else if a.stock.cards@.len() == 0 {
                lemma_faces_turned(a.talon.cards@, false);
                assert(a.stock.cards@ =~= empty);
                assert(b.talon.cards@ =~= empty);
                assert(stock0.add(talon0) =~= stock1.add(talon1));
            } else {
                let at = a.stock.cards@.len() - a.stock.spec_draw_len();
                let drawn = a.stock.cards@.skip(at);
                lemma_faces_split(a.stock.cards@, at);
                lemma_faces_turned(drawn, true);
                lemma_faces_concat(a.talon.cards@, spec_turned(drawn, true));
                assert(stock0.add(talon0) =~= stock1.add(talon1));
            }
            assert(new.spec_cards_in_play() =~= old.spec_cards_in_play());
        },
        AreaId::Talon => {
            assert(found1 == found0 && tab1 == tab0 && stock1 == stock0);
            match mode {
                SelectionMode::Cards(_) => {
                    let n = a.talon.cards@.len() - 1;
                    assert(b.talon.cards@ =~= a.talon.cards@.take(n));
                    assert(spec_floating(Some(new.selection.mode)) =~= a.talon.cards@.skip(n));
                    lemma_faces_split(a.talon.cards@, n);
                    assert(talon0.add(held0) =~= talon1.add(held1));
                },
                SelectionMode::Held(held) => {
                    lemma_faces_concat(a.talon.cards@, held.cards@);
                    assert(spec_floating(Some(new.selection.mode)) =~= empty);
                    assert(talon0.add(held0) =~= talon1.add(held1));
                },
            }
            assert(new.spec_cards_in_play() =~= old.spec_cards_in_play());
        },
        AreaId::Foundation(index) => {
            let i = index as int;
            assert(tab1 == tab0 && stock1 == stock0 && talon1 == talon0);
            let old_pile = a.foundation@[i].cards@;
            let new_pile = b.foundation@[i].cards@;
            assert(spec_foundation_piles(b) =~= spec_foundation_piles(a).update(i, new_pile));
            lemma_piles_update(spec_foundation_piles(a), i, new_pile);
            let action = choose|action: Option<Action>|
                #[trigger] Foundation::spec_activates(
                    a.foundation@[i],
                    mode,
                    b.foundation@[i],
                    new.selection.mode,
                    action,
                );
            match mode {
                SelectionMode::Cards(_) => {
                    if a.foundation@[i].take_from_foundation {
                        let n = old_pile.len() - 1;
                        assert(new_pile =~= old_pile.take(n));
                        assert(spec_floating(Some(new.selection.mode)) =~= old_pile.skip(n));
                        lemma_faces_split(old_pile, n);
                    } else {
                        assert(spec_floating(Some(new.selection.mode)) =~= empty);
                    }
                },
                SelectionMode::Held(held) => {
                    lemma_faces_concat(old_pile, held.cards@);
                    assert(spec_floating(Some(new.selection.mode)) =~= empty);
                },
            }
            assert(found0.add(held0) =~= found1.add(held1)) by {
                assert forall|c: Card| found0.add(held0).count(c) == found1.add(held1).count(c) by {
                    assert(found1.add(spec_card_faces(old_pile)).count(c) == found0.add(
                        spec_card_faces(new_pile),
                    ).count(c));
                }
            }
            assert(new.spec_cards_in_play() =~= old.spec_cards_in_play()) by {
                assert forall|c: Card|
                    new.spec_cards_in_play().count(c) == old.spec_cards_in_play().count(c) by {
                    assert(found0.add(held0).count(c) == found1.add(held1).count(c));
                }
            }
        },
        AreaId::Tableaux(index) => {
            let i = index as int;
            assert(found1 == found0 && stock1 == stock0 && talon1 == talon0);
            let old_pile = a.tableaux@[i].cards@;
            let new_pile = b.tableaux@[i].cards@;
            assert(spec_tableaux_piles(b) =~= spec_tableaux_piles(a).update(i, new_pile));
            lemma_piles_update(spec_tableaux_piles(a), i, new_pile);
            let action = choose|action: Option<Action>|
                #[trigger] Tableaux::spec_activates(
                    a.tableaux@[i],
                    mode,
                    b.tableaux@[i],
                    new.selection.mode,
                    action,
                );
            match mode {
                SelectionMode::Cards(n) => {
                    assert(spec_floating(Some(new.selection.mode)) =~= empty || a.tableaux@[
                        i
                    ].revealed_len > 0);
                    if a.tableaux@[i].revealed_len > 0 {
                        let at = old_pile.len() - n;
                        assert(new_pile =~= old_pile.take(at));
                        assert(spec_floating(Some(new.selection.mode)) =~= old_pile.skip(at));
                        lemma_faces_split(old_pile, at);
                    } else {
                        assert(spec_floating(Some(new.selection.mode)) =~= empty);
                        let f = |card: Card| spec_face_blind(card);
                        assert(new_pile.map_values(f) =~= old_pile.map_values(f));
                    }
                },
                SelectionMode::Held(held) => {
                    lemma_faces_concat(old_pile, held.cards@);
                    assert(spec_floating(Some(new.selection.mode)) =~= empty);
                },
            }
            assert(tab0.add(held0) =~= tab1.add(held1)) by {
                assert forall|c: Card| tab0.add(held0).count(c) == tab1.add(held1).count(c) by {
                    assert(tab1.add(spec_card_faces(old_pile)).count(c) == tab0.add(
                        spec_card_faces(new_pile),
                    ).count(c));
                }
            }
            assert(new.spec_cards_in_play() =~= old.spec_cards_in_play()) by {
                assert forall|c: Card|
                    new.spec_cards_in_play().count(c) == old.spec_cards_in_play().count(c) by {
                    assert(tab0.add(held0).count(c) == tab1.add(held1).count(c));
                }
            }
        },
    }
    assert(new.spec_cards_in_play() =~= old.spec_cards_in_play());
}

} // verus!
