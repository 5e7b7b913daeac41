//! A Klondike game whose selection walks over a fixed row of areas: the stock, the talon, four
//! foundations and seven tableaux.

use vstd::prelude::*;

use super::card::{Card, Suit};
use super::deck::Deck;
use super::stack::{Stack, StackDetails, StackSelection};

verus! {

/// An area of the table.
#[derive(Copy, Clone, Debug, PartialEq, Eq, Structural)]
pub enum GameArea {
    Stock,
    Talon,
    Foundation(usize),
    Tableaux(usize),
}

/// Cards picked up from an area.
#[derive(Debug)]
pub struct GameHolding {
    pub source: GameArea,
    pub cards: Vec<Card>,
}

/// What is selected on a tableaux: its top cards, or the whole pile.
#[derive(Copy, Clone, Debug, PartialEq, Eq, Structural)]
pub enum TableauxSelection {
    Cards(usize),
    Stack,
}

/// The selected area.
#[derive(Copy, Clone, Debug, PartialEq, Eq, Structural)]
pub enum GameSelection {
    Stock,
    Talon,
    Foundation(usize),
    Tableaux(usize, TableauxSelection),
}

/// The cards of a tableaux; the top `revealed_len` of them face up.
#[derive(Debug)]
pub struct TableauxSpread {
    pub cards: Vec<Card>,
    pub revealed_len: usize,
}

/// A game in progress.
#[derive(Debug)]
pub struct KlondikeGame {
    pub stock: Vec<Card>,
    pub talon: Vec<Card>,
    /// How many of the talon's top cards are fanned out.
    pub talon_len: usize,
    pub foundation: Vec<Vec<Card>>,
    pub tableaux: Vec<TableauxSpread>,
    pub holding: Option<GameHolding>,
    pub selection: GameSelection,
}

/// Whether the selection names one of the four foundations or seven tableaux.
pub open spec fn spec_selection_in_range(selection: GameSelection) -> bool {
    match selection {
        GameSelection::Foundation(index) => index < 4,
        GameSelection::Tableaux(index, _) => index < 7,
        _ => true,
    }
}

/// The selection to the left of `selection`: none left of the stock, and the last foundation
/// left of the first tableaux.
pub open spec fn spec_next_left(selection: GameSelection) -> Option<GameSelection> {
    match selection {
        GameSelection::Stock => None,
        GameSelection::Talon => Some(GameSelection::Stock),
        GameSelection::Foundation(index) => if index == 0 {
            Some(GameSelection::Talon)
        } else {
            Some(GameSelection::Foundation((index - 1) as usize))
        },
        GameSelection::Tableaux(index, tableaux_selection) => if index == 0 {
            Some(GameSelection::Foundation(3))
        } else {
            Some(GameSelection::Tableaux((index - 1) as usize, tableaux_selection))
        },
    }
}

/// The selection to the right of `selection`: the first tableaux, with its top card selected,
/// right of the last foundation, and none right of the last tableaux.
pub open spec fn spec_next_right(selection: GameSelection) -> Option<GameSelection> {
    match selection {
        GameSelection::Stock => Some(GameSelection::Talon),
        GameSelection::Talon => Some(GameSelection::Foundation(0)),
        GameSelection::Foundation(index) => if index < 3 {
            Some(GameSelection::Foundation((index + 1) as usize))
        } else {
            Some(GameSelection::Tableaux(0, TableauxSelection::Cards(1)))
        },
        GameSelection::Tableaux(index, tableaux_selection) => if index < 6 {
            Some(GameSelection::Tableaux((index + 1) as usize, tableaux_selection))
        } else {
            None
        },
    }
}

/// Position of a selection from the left, which every step left lowers.
pub open spec fn spec_left_rank(selection: GameSelection) -> nat {
    match selection {
        GameSelection::Stock => 0,
        GameSelection::Talon => 1,
        GameSelection::Foundation(index) => 2 + index as nat,
        GameSelection::Tableaux(index, _) => 6 + index as nat,
    }
}

/// Position of a selection from the left, counting all foundations past the fourth and all
/// tableaux past the seventh as the last; every step right raises it.
pub open spec fn spec_right_rank(selection: GameSelection) -> nat {
    match selection {
        GameSelection::Stock => 0,
        GameSelection::Talon => 1,
        GameSelection::Foundation(index) => if index < 3 {
            2 + index as nat
        } else {
            5
        },
        GameSelection::Tableaux(index, _) => if index < 6 {
            6 + index as nat
        } else {
            12
        },
    }
}

/// `cards` with every card turned face up.
pub open spec fn spec_all_face_up(cards: Seq<Card>) -> Seq<Card> {
    cards.map_values(|card: Card| Card { face_up: true, ..card })
}

/// The deck after taking its top `count` cards, and those cards; nothing is taken when fewer
/// remain.
pub open spec fn spec_deal_top(deck: Seq<Card>, count: int) -> (Seq<Card>, Seq<Card>) {
    if count <= deck.len() {
        (deck.take(deck.len() - count), deck.skip(deck.len() - count))
    } else {
        (deck, Seq::empty())
    }
}

/// The deck after taking its top card, and that card turned face up, if there is one.
pub open spec fn spec_deal_one_face_up(deck: Seq<Card>) -> (Seq<Card>, Seq<Card>) {
    if deck.len() > 0 {
        (deck.drop_last(), seq![Card { face_up: true, ..deck.last() }])
    } else {
        (deck, Seq::empty())
    }
}

/// The cards that tableaux `index` receives from `deck`: its top `index` cards, then one more
/// turned face up.
pub open spec fn spec_tableaux_pile(deck: Seq<Card>, index: int) -> Seq<Card> {
    let (rest, dealt) = spec_deal_top(deck, index);
    dealt + spec_deal_one_face_up(rest).1
}

/// What is left of `deck` once tableaux `index` has received its cards.
pub open spec fn spec_after_pile(deck: Seq<Card>, index: int) -> Seq<Card> {
    spec_deal_one_face_up(spec_deal_top(deck, index).0).0
}

/// What is left of `deck` once the tableaux before `index` have received their cards.
pub open spec fn spec_deck_before_pile(deck: Seq<Card>, index: int) -> Seq<Card>
    decreases index,
{
    if index <= 0 {
        deck
    } else {
        spec_after_pile(spec_deck_before_pile(deck, index - 1), index - 1)
    }
}

impl KlondikeGame {
    /// The number of held cards.
    pub open spec fn spec_held_len(&self) -> int {
        match self.holding {
            Some(holding) => holding.cards@.len() as int,
            None => 0,
        }
    }

    /// Four foundations, seven tableaux, a selection among them, and no count that overflows
    /// when the held cards are added to it.
    pub open spec fn wf(&self) -> bool {
        let h = self.spec_held_len();
        &&& self.foundation@.len() == 4
        &&& self.tableaux@.len() == 7
        &&& self.talon_len + h + 1 <= usize::MAX
        &&& self.talon@.len() + h <= usize::MAX
        &&& forall|i: int| 0 <= i < 4 ==> #[trigger] self.foundation@[i]@.len() + h <= usize::MAX
        &&& forall|i: int|
            0 <= i < 7 ==> #[trigger] self.tableaux@[i].cards@.len() + h <= usize::MAX
                && self.tableaux@[i].revealed_len + h <= usize::MAX
        &&& spec_selection_in_range(self.selection)
    }

    /// Whether `selection` may be selected now. With cards held: not the stock, the talon only
    /// when they came from it, a foundation for a single card of its suit that ranks directly
    /// below its top card (an Ace on an empty one), and a tableaux whose face-up top card
    /// ranks directly below the first held card and has the other color (a King on an empty
    /// one). Without: the stock always, other areas when they have cards, and no more than the
    /// face-up cards of a tableaux, at least one.
    pub open spec fn spec_is_valid_selection(&self, selection: GameSelection) -> bool {
        match self.holding {
            Some(holding) => match selection {
                GameSelection::Stock => false,
                GameSelection::Talon => holding.source == GameArea::Talon,
                GameSelection::Foundation(index) => {
                    let pile = self.foundation@[index as int]@;
                    let card = holding.cards@[0];
                    &&& holding.cards@.len() == 1
                    &&& index == card.suit.spec_index()
                    &&& if pile.len() > 0 {
                        card.rank.spec_is_followed_by(pile.last().rank)
                    } else {
                        card.rank.0 == 1
                    }
                },
                GameSelection::Tableaux(index, _) => {
                    let pile = self.tableaux@[index as int].cards@;
                    let card = holding.cards@[0];
                    &&& holding.cards@.len() > 0
                    &&& if pile.len() > 0 {
                        &&& pile.last().face_up
                        &&& pile.last().rank.spec_is_followed_by(card.rank)
                        &&& pile.last().spec_color() != card.spec_color()
                    } else {
                        card.rank.0 == 13
                    }
                },
            },
            None => match selection {
                GameSelection::Stock => true,
                GameSelection::Talon => self.talon@.len() > 0,
                GameSelection::Foundation(index) => self.foundation@[index as int]@.len() > 0,
                GameSelection::Tableaux(index, tableaux_selection) => {
                    let spread = self.tableaux@[index as int];
                    match tableaux_selection {
                        TableauxSelection::Cards(len) => spread.cards@.len() > 0 && 0 < len
                            && len <= spread.revealed_len,
                        TableauxSelection::Stack => spread.cards@.len() > 0,
                    }
                },
            },
        }
    }

    /// The first valid selection reached by stepping left from `selection`, if any.
    pub open spec fn spec_first_valid_left(&self, selection: GameSelection) -> Option<
        GameSelection,
    >
        decreases spec_left_rank(selection),
    {
        match spec_next_left(selection) {
            None => None,
            Some(next) => if self.spec_is_valid_selection(next) {
                Some(next)
            } else {
                self.spec_first_valid_left(next)
            },
        }
    }

    /// The first valid selection reached by stepping right from `selection`, if any.
    pub open spec fn spec_first_valid_right(&self, selection: GameSelection) -> Option<
        GameSelection,
    >
        decreases 13 - spec_right_rank(selection),
    {
        match spec_next_right(selection) {
            None => None,
            Some(next) => if self.spec_is_valid_selection(next) {
                Some(next)
            } else {
                self.spec_first_valid_right(next)
            },
        }
    }

    /// The game with `selection` selected when that selection is valid, unchanged otherwise.
    pub open spec fn spec_try_select(&self, selection: GameSelection) -> GameSelection {
        if self.spec_is_valid_selection(selection) {
            selection
        } else {
            self.selection
        }
    }
}

impl KlondikeGame {
    /// Whether `selection` may be selected now (see `spec_is_valid_selection`).
    fn is_valid_selection(&self, selection: GameSelection) -> (b: bool)
        requires
            self.wf(),
            spec_selection_in_range(selection),
        ensures
            b == self.spec_is_valid_selection(selection),
    {
        match &self.holding {
            Some(holding) => match selection {
                GameSelection::Stock => false,
                GameSelection::Talon => holding.source == GameArea::Talon,
                GameSelection::Foundation(index) => {
                    if holding.cards.len() == 1 {
                        let card = holding.cards[0];
                        let pile = &self.foundation[index];
                        if pile.len() > 0 {
                            let top = pile[pile.len() - 1];
                            index == card.suit.index() && card.rank.is_followed_by(top.rank)
                        } else {
                            index == card.suit.index() && card.rank.is_ace()
                        }
                    } else {
                        false
                    }
                },
                GameSelection::Tableaux(index, _) => {
                    if holding.cards.len() > 0 {
                        let card = holding.cards[0];
                        let pile = &self.tableaux[index].cards;
                        if pile.len() > 0 {
                            let top = pile[pile.len() - 1];
                            top.face_up && top.rank.is_followed_by(card.rank) && top.color()
                                != card.color()
                        } else {
                            card.rank.is_king()
                        }
                    } else {
                        false
                    }
                },
            },
            None => match selection {
                GameSelection::Stock => true,
                GameSelection::Talon => self.talon.len() > 0,
                GameSelection::Foundation(index) => self.foundation[index].len() > 0,
                GameSelection::Tableaux(index, tableaux_selection) => {
                    let spread = &self.tableaux[index];
                    match tableaux_selection {
                        TableauxSelection::Cards(len) => spread.cards.len() > 0 && 0 < len && len
                            <= spread.revealed_len,
                        TableauxSelection::Stack => spread.cards.len() > 0,
                    }
                },
            },
        }
    }

    /// The selection to the left of `selection`.
    fn next_selection_left(&self, selection: GameSelection) -> (next: Option<GameSelection>)
        ensures
            next == spec_next_left(selection),
    {
        match selection {
            GameSelection::Stock => None,
            GameSelection::Talon => Some(GameSelection::Stock),
            GameSelection::Foundation(index) => if index == 0 {
                Some(GameSelection::Talon)
            } else {
                Some(GameSelection::Foundation(index - 1))
            },
            GameSelection::Tableaux(index, tableaux_selection) => if index == 0 {
                Some(GameSelection::Foundation(3))
            } else {
                Some(GameSelection::Tableaux(index - 1, tableaux_selection))
            },
        }
    }

    /// The selection to the right of `selection`.
    fn next_selection_right(&self, selection: GameSelection) -> (next: Option<GameSelection>)
        ensures
            next == spec_next_right(selection),
    {
        match selection {
            GameSelection::Stock => Some(GameSelection::Talon),
            GameSelection::Talon => Some(GameSelection::Foundation(0)),
            GameSelection::Foundation(index) => if index < 3 {
                Some(GameSelection::Foundation(index + 1))
            } else {
                Some(GameSelection::Tableaux(0, TableauxSelection::Cards(1)))
            },
            GameSelection::Tableaux(index, tableaux_selection) => if index < 6 {
                Some(GameSelection::Tableaux(index + 1, tableaux_selection))
            } else {
                None
            },
        }
    }

    /// The first valid selection left of `selection`.
    fn first_valid_left(&self, selection: GameSelection) -> (r: Option<GameSelection>)
        requires
            self.wf(),
            spec_selection_in_range(selection),
        ensures
            r == self.spec_first_valid_left(selection),
            r matches Some(next) ==> spec_selection_in_range(next),
        decreases spec_left_rank(selection),
    {
        match self.next_selection_left(selection) {
            None => None,
            Some(next) => if self.is_valid_selection(next) {
                Some(next)
            } else {
                self.first_valid_left(next)
            },
        }
    }

    /// The first valid selection right of `selection`.
    fn first_valid_right(&self, selection: GameSelection) -> (r: Option<GameSelection>)
        requires
            self.wf(),
            spec_selection_in_range(selection),
        ensures
            r == self.spec_first_valid_right(selection),
            r matches Some(next) ==> spec_selection_in_range(next),
        decreases 13 - spec_right_rank(selection),
    {
        match self.next_selection_right(selection) {
            None => None,
            Some(next) => if self.is_valid_selection(next) {
                Some(next)
            } else {
                self.first_valid_right(next)
            },
        }
    }

    /// Selects `selection` if it is valid.
    fn try_select(&mut self, selection: GameSelection)
        requires
            old(self).wf(),
            spec_selection_in_range(selection),
        ensures
            final(self).wf(),
            *final(self) == (KlondikeGame {
                selection: old(self).spec_try_select(selection),
                ..*old(self)
            }),
    {
        if self.is_valid_selection(selection) {
            self.selection = selection;
        }
    }

    /// Moves the selection to the stock, if it may be selected.
    pub fn move_to_stock(&mut self)
        requires
            old(self).wf(),
        ensures
            final(self).wf(),
            *final(self) == (KlondikeGame {
                selection: old(self).spec_try_select(GameSelection::Stock),
                ..*old(self)
            }),
    {
        self.try_select(GameSelection::Stock);
    }

    /// Moves the selection to the talon, if it may be selected.
    pub fn move_to_talon(&mut self)
        requires
            old(self).wf(),
        ensures
            final(self).wf(),
            *final(self) == (KlondikeGame {
                selection: old(self).spec_try_select(GameSelection::Talon),
                ..*old(self)
            }),
    {
        self.try_select(GameSelection::Talon);
    }

    /// Moves the selection to the top card of tableaux `index`, if it may be selected.
    pub fn move_to_tableaux(&mut self, index: usize)
        requires
            old(self).wf(),
            index < 7,
        ensures
            final(self).wf(),
            *final(self) == (KlondikeGame {
                selection: old(self).spec_try_select(
                    GameSelection::Tableaux(index, TableauxSelection::Cards(1)),
                ),
                ..*old(self)
            }),
    {
        self.try_select(GameSelection::Tableaux(index, TableauxSelection::Cards(1)));
    }

    /// Moves the selection to the nearest valid selection on the left, if there is one.
    pub fn move_left(&mut self)
        requires
            old(self).wf(),
        ensures
            final(self).wf(),
            *final(self) == (KlondikeGame {
                selection: match old(self).spec_first_valid_left(old(self).selection) {
                    Some(next) => next,
                    None => old(self).selection,
                },
                ..*old(self)
            }),
    {
        if let Some(next) = self.first_valid_left(self.selection) {
            self.selection = next;
        }
    }

    /// Moves the selection to the nearest valid selection on the right, if there is one.
    pub fn move_right(&mut self)
        requires
            old(self).wf(),
        ensures
            final(self).wf(),
            *final(self) == (KlondikeGame {
                selection: match old(self).spec_first_valid_right(old(self).selection) {
                    Some(next) => next,
                    None => old(self).selection,
                },
                ..*old(self)
            }),
    {
        if let Some(next) = self.first_valid_right(self.selection) {
            self.selection = next;
        }
    }

    /// Selects one more card of the selected tableaux, if that selection is valid.
    pub fn move_up(&mut self)
        requires
            old(self).wf(),
            !(old(self).selection matches GameSelection::Tableaux(_, TableauxSelection::Cards(len))
                && len == usize::MAX),
        ensures
            final(self).wf(),
            *final(self) == (KlondikeGame {
                selection: match old(self).selection {
                    GameSelection::Tableaux(index, TableauxSelection::Cards(len)) => old(
                        self,
                    ).spec_try_select(
                        GameSelection::Tableaux(index, TableauxSelection::Cards((len + 1) as usize)),
                    ),
                    _ => old(self).selection,
                },
                ..*old(self)
            }),
    {
        if let GameSelection::Tableaux(index, TableauxSelection::Cards(len)) = self.selection {
            self.try_select(GameSelection::Tableaux(index, TableauxSelection::Cards(len + 1)));
        }
    }

    /// Selects one card fewer of the selected tableaux, if that selection is valid.
    pub fn move_down(&mut self)
        requires
            old(self).wf(),
            !(old(self).selection matches GameSelection::Tableaux(_, TableauxSelection::Cards(len))
                && len == 0),
        ensures
            final(self).wf(),
            *final(self) == (KlondikeGame {
                selection: match old(self).selection {
                    GameSelection::Tableaux(index, TableauxSelection::Cards(len)) => old(
                        self,
                    ).spec_try_select(
                        GameSelection::Tableaux(index, TableauxSelection::Cards((len - 1) as usize)),
                    ),
                    _ => old(self).selection,
                },
                ..*old(self)
            }),
    {
        if let GameSelection::Tableaux(index, TableauxSelection::Cards(len)) = self.selection {
            self.try_select(GameSelection::Tableaux(index, TableauxSelection::Cards(len - 1)));
        }
    }
}

impl KlondikeGame {
    /// The layout of the stock: its top card shown over one more, the top card selected with
    /// the stock.
    pub open spec fn spec_stock_details(&self) -> StackDetails {
        StackDetails {
            len: self.stock@.len() as usize,
            visible_len: 2,
            spread_len: 1,
            selection: if self.selection == GameSelection::Stock {
                Some(StackSelection::Cards(1))
            } else {
                None
            },
        }
    }

    /// Whether the held cards float over the talon: they do while it is selected.
    pub open spec fn spec_talon_floats(&self) -> bool {
        self.holding is Some && self.selection == GameSelection::Talon
    }

    /// The layout of the talon: its fanned cards shown over one more, and the held cards
    /// fanned with them while the talon is selected.
    pub open spec fn spec_talon_details(&self) -> StackDetails {
        if self.spec_talon_floats() {
            let h = self.spec_held_len();
            StackDetails {
                len: (self.talon@.len() + h) as usize,
                visible_len: (self.talon_len + h + 1) as usize,
                spread_len: (self.talon_len + h) as usize,
                selection: Some(StackSelection::Cards(h as usize)),
            }
        } else {
            StackDetails {
                len: self.talon@.len() as usize,
                visible_len: (self.talon_len + 1) as usize,
                spread_len: self.talon_len,
                selection: if self.holding is None && self.selection == GameSelection::Talon {
                    Some(StackSelection::Cards(1))
                } else {
                    None
                },
            }
        }
    }

    /// Whether the held cards float over foundation `index`: they do while it is selected.
    pub open spec fn spec_foundation_floats(&self, index: int) -> bool {
        self.holding is Some && self.selection == GameSelection::Foundation(index as usize)
    }

    /// The layout of foundation `index`: its top card shown over one more; held cards over it
    /// while it is selected; the whole pile selected with it otherwise.
    pub open spec fn spec_foundation_details(&self, index: int) -> StackDetails {
        let len = self.foundation@[index]@.len();
        if self.spec_foundation_floats(index) {
            StackDetails {
                len: (len + self.spec_held_len()) as usize,
                visible_len: 2,
                spread_len: 1,
                selection: Some(StackSelection::Stack(1)),
            }
        } else {
            StackDetails {
                len: len as usize,
                visible_len: 2,
                spread_len: 1,
                selection: if self.holding is None && self.selection == GameSelection::Foundation(
                    index as usize,
                ) {
                    Some(StackSelection::FullStack)
                } else {
                    None
                },
            }
        }
    }

    /// Whether the held cards float over tableaux `index`: they do while it is selected.
    pub open spec fn spec_tableaux_floats(&self, index: int) -> bool {
        &&& self.holding is Some
        &&& self.selection matches GameSelection::Tableaux(i, _) && i == index
    }

    /// The layout of tableaux `index`: all its cards shown, the revealed ones spread; held
    /// cards spread over it while it is selected; its selected top cards, or the whole pile,
    /// selected otherwise.
    pub open spec fn spec_tableaux_details(&self, index: int) -> StackDetails {
        let spread = self.tableaux@[index];
        let len = spread.cards@.len();
        let h = self.spec_held_len();
        if self.spec_tableaux_floats(index) {
            StackDetails {
                len: (len + h) as usize,
                visible_len: (len + h) as usize,
                spread_len: (spread.revealed_len + h) as usize,
                selection: Some(StackSelection::Stack(h as usize)),
            }
        } else {
            StackDetails {
                len: len as usize,
                visible_len: len as usize,
                spread_len: spread.revealed_len,
                selection: match self.selection {
                    GameSelection::Tableaux(i, tableaux_selection) => if self.holding is None && i
                        == index {
                        match tableaux_selection {
                            TableauxSelection::Cards(n) => Some(StackSelection::Cards(n)),
                            TableauxSelection::Stack => Some(StackSelection::FullStack),
                        }
                    } else {
                        None
                    },
                    _ => None,
                },
            }
        }
    }

    /// The held cards, or none.
    pub open spec fn spec_held_cards(&self) -> Seq<Card> {
        match self.holding {
            Some(holding) => holding.cards@,
            None => Seq::empty(),
        }
    }

    /// The stock as a stack.
    pub fn stock(&self) -> (stack: Stack)
        ensures
            stack.cards@ == self.stock@,
            stack.floating@.len() == 0,
            stack.details == self.spec_stock_details(),
    {
        let selection = match self.selection {
            GameSelection::Stock => Some(StackSelection::Cards(1)),
            _ => None,
        };
        Stack::with_cards(
            self.stock.as_slice(),
            StackDetails { len: self.stock.len(), visible_len: 2, spread_len: 1, selection },
        )
    }

    /// The talon as a stack.
    pub fn talon(&self) -> (stack: Stack)
        requires
            self.wf(),
        ensures
            stack.cards@ == self.talon@,
            stack.floating@ == if self.spec_talon_floats() {
                self.spec_held_cards()
            } else {
                Seq::empty()
            },
            stack.details == self.spec_talon_details(),
    {
        if let Some(holding) = &self.holding {
            match self.selection {
                GameSelection::Talon => {
                    let held_len = holding.cards.len();
                    return Stack::with_floating_cards(
                        self.talon.as_slice(),
                        holding.cards.as_slice(),
                        StackDetails {
                            len: self.talon.len() + held_len,
                            visible_len: self.talon_len + held_len + 1,
                            spread_len: self.talon_len + held_len,
                            selection: Some(StackSelection::Cards(held_len)),
                        },
                    );
                },
                _ => {},
            }
        }
        let selection = match self.selection {
            GameSelection::Talon => if self.holding.is_none() {
                Some(StackSelection::Cards(1))
            } else {
                None
            },
            _ => None,
        };
        Stack::with_cards(
            self.talon.as_slice(),
            StackDetails {
                len: self.talon.len(),
                visible_len: self.talon_len + 1,
                spread_len: self.talon_len,
                selection,
            },
        )
    }

    /// Foundation `index` as a stack.
    fn foundation_helper(&self, index: usize) -> (stack: Stack)
        requires
            self.wf(),
            index < 4,
        ensures
            stack.cards@ == self.foundation@[index as int]@,
            stack.floating@ == if self.spec_foundation_floats(index as int) {
                self.spec_held_cards()
            } else {
                Seq::empty()
            },
            stack.details == self.spec_foundation_details(index as int),
    {
        let cards = self.foundation[index].as_slice();
        if let Some(holding) = &self.holding {
            if self.selection == GameSelection::Foundation(index) {
                return Stack::with_floating_cards(
                    cards,
                    holding.cards.as_slice(),
                    StackDetails {
                        len: cards.len() + holding.cards.len(),
                        visible_len: 2,
                        spread_len: 1,
                        selection: Some(StackSelection::Stack(1)),
                    },
                );
            }
        }
        let selection = if self.holding.is_none() && self.selection == GameSelection::Foundation(
            index,
        ) {
            Some(StackSelection::FullStack)
        } else {
            None
        };
        Stack::with_cards(
            cards,
            StackDetails { len: cards.len(), visible_len: 2, spread_len: 1, selection },
        )
    }

    /// The four foundations as stacks.
    pub fn foundation(&self) -> (stacks: Vec<Stack>)
        requires
            self.wf(),
        ensures
            stacks@.len() == 4,
            forall|i: int|
                0 <= i < 4 ==> {
                    &&& (#[trigger] stacks@[i]).cards@ == self.foundation@[i]@
                    &&& stacks@[i].floating@ == if self.spec_foundation_floats(i) {
                        self.spec_held_cards()
                    } else {
                        Seq::empty()
                    }
                    &&& stacks@[i].details == self.spec_foundation_details(i)
                },
    {
        let mut stacks: Vec<Stack> = Vec::new();
        let mut index: usize = 0;
        while index < 4
            invariant
                self.wf(),
                index <= 4,
                stacks@.len() == index,
                forall|i: int|
                    0 <= i < index ==> {
                        &&& (#[trigger] stacks@[i]).cards@ == self.foundation@[i]@
                        &&& stacks@[i].floating@ == if self.spec_foundation_floats(i) {
                            self.spec_held_cards()
                        } else {
                            Seq::empty()
                        }
                        &&& stacks@[i].details == self.spec_foundation_details(i)
                    },
            decreases 4 - index,
        {
            stacks.push(self.foundation_helper(index));
            index = index + 1;
        }
        stacks
    }

    /// Tableaux `index` as a stack.
    fn tableaux_spread_helper(&self, index: usize) -> (stack: Stack)
        requires
            self.wf(),
            index < 7,
        ensures
            stack.cards@ == self.tableaux@[index as int].cards@,
            stack.floating@ == if self.spec_tableaux_floats(index as int) {
                self.spec_held_cards()
            } else {
                Seq::empty()
            },
            stack.details == self.spec_tableaux_details(index as int),
    {
        let spread = &self.tableaux[index];
        let cards = spread.cards.as_slice();
        if let Some(holding) = &self.holding {
            if let GameSelection::Tableaux(selected_index, _) = self.selection {
                if selected_index == index {
                    let held_len = holding.cards.len();
                    return Stack::with_floating_cards(
                        cards,
                        holding.cards.as_slice(),
                        StackDetails {
                            len: cards.len() + held_len,
                            visible_len: cards.len() + held_len,
                            spread_len: spread.revealed_len + held_len,
                            selection: Some(StackSelection::Stack(held_len)),
                        },
                    );
                }
            }
        }
        let selection = match self.selection {
            GameSelection::Tableaux(selected_index, tableaux_selection) => if self.holding.is_none()
                && selected_index == index {
                match tableaux_selection {
                    TableauxSelection::Cards(len) => Some(StackSelection::Cards(len)),
                    TableauxSelection::Stack => Some(StackSelection::FullStack),
                }
            } else {
                None
            },
            _ => None,
        };
        Stack::with_cards(
            cards,
            StackDetails {
                len: cards.len(),
                visible_len: cards.len(),
                spread_len: spread.revealed_len,
                selection,
            },
        )
    }

    /// The seven tableaux as stacks.
    pub fn tableaux(&self) -> (stacks: Vec<Stack>)
        requires
            self.wf(),
        ensures
            stacks@.len() == 7,
            forall|i: int|
                0 <= i < 7 ==> {
                    &&& (#[trigger] stacks@[i]).cards@ == self.tableaux@[i].cards@
                    &&& stacks@[i].floating@ == if self.spec_tableaux_floats(i) {
                        self.spec_held_cards()
                    } else {
                        Seq::empty()
                    }
                    &&& stacks@[i].details == self.spec_tableaux_details(i)
                },
    {
        let mut stacks: Vec<Stack> = Vec::new();
        let mut index: usize = 0;
        while index < 7
            invariant
                self.wf(),
                index <= 7,
                stacks@.len() == index,
                forall|i: int|
                    0 <= i < index ==> {
                        &&& (#[trigger] stacks@[i]).cards@ == self.tableaux@[i].cards@
                        &&& stacks@[i].floating@ == if self.spec_tableaux_floats(i) {
                            self.spec_held_cards()
                        } else {
                            Seq::empty()
                        }
                        &&& stacks@[i].details == self.spec_tableaux_details(i)
                    },
            decreases 7 - index,
        {
            stacks.push(self.tableaux_spread_helper(index));
            index = index + 1;
        }
        stacks
    }
}

impl KlondikeGame {
    /// Deals a game from `deck` (its top is the end of the sequence): tableaux `i` receives
    /// the top `i` cards and one more turned face up, counted as revealed; the talon receives
    /// the next three cards turned face up, all fanned; the stock takes the rest, leaving the
    /// deck empty. The foundations start empty, nothing is held and the stock is selected.
    pub fn new(deck: &mut Deck) -> (game: KlondikeGame)
        ensures
            game.wf(),
            forall|i: int|
                0 <= i < 7 ==> (#[trigger] game.tableaux@[i]).cards@ == spec_tableaux_pile(
                    spec_deck_before_pile(old(deck).cards@, i),
                    i,
                ) && game.tableaux@[i].revealed_len == 1,
            game.talon@ == spec_all_face_up(
                spec_deal_top(spec_deck_before_pile(old(deck).cards@, 7), 3).1,
            ),
            game.talon_len == 3,
            game.stock@ == spec_deal_top(spec_deck_before_pile(old(deck).cards@, 7), 3).0,
            forall|i: int| 0 <= i < 4 ==> (#[trigger] game.foundation@[i])@.len() == 0,
            game.holding is None,
            game.selection == GameSelection::Stock,
            final(deck).cards@.len() == 0,
    {
        let ghost full_deck = deck.cards@;
        let mut tableaux: Vec<TableauxSpread> = Vec::new();
        let mut i: usize = 0;
        while i < 7
            invariant
                i <= 7,
                tableaux@.len() == i,
                deck.cards@ == spec_deck_before_pile(full_deck, i as int),
                forall|j: int|
                    0 <= j < i ==> (#[trigger] tableaux@[j]).cards@ == spec_tableaux_pile(
                        spec_deck_before_pile(full_deck, j),
                        j,
                    ) && tableaux@[j].revealed_len == 1,
            decreases 7 - i,
        {
            let ghost before = deck.cards@;
            let mut cards = deck.deal(i);
            let ghost dealt = cards@;
            match deck.deal_one() {
                Some(card) => cards.push(card.face_up()),
                None => {},
            }
            proof {
                assert(cards@ =~= spec_tableaux_pile(before, i as int));
                assert(deck.cards@ =~= spec_after_pile(before, i as int));
            }
            tableaux.push(TableauxSpread { cards, revealed_len: 1 });
            i = i + 1;
        }
        let dealt = deck.deal(3);
        let mut talon: Vec<Card> = Vec::new();
        let mut k: usize = 0;
        while k < dealt.len()
            invariant
                k <= dealt@.len(),
                talon@ == spec_all_face_up(dealt@.take(k as int)),
            decreases dealt@.len() - k,
        {
            talon.push(dealt[k].face_up());
            k = k + 1;
            assert(talon@ =~= spec_all_face_up(dealt@.take(k as int)));
        }
        assert(dealt@.take(dealt@.len() as int) =~= dealt@);
        let stock = deck.deal_rest();
        let mut foundation: Vec<Vec<Card>> = Vec::new();
        let mut f: usize = 0;
        while f < 4
            invariant
                f <= 4,
                foundation@.len() == f,
                forall|j: int| 0 <= j < f ==> (#[trigger] foundation@[j])@.len() == 0,
            decreases 4 - f,
        {
            foundation.push(Vec::new());
            f = f + 1;
        }
        KlondikeGame {
            stock,
            talon,
            talon_len: 3,
            foundation,
            tableaux,
            holding: None,
            selection: GameSelection::Stock,
        }
    }
}

/// With nothing held, a selection in a tableaux covers only its face-up cards: a selection of
/// `len` cards of tableaux `index` is valid exactly when the tableaux has cards and `len` is at
/// least one and at most its number of face-up cards. So moving up from such a selection
/// selects one card more only while face-up cards remain, and otherwise keeps the selection.
pub proof fn lemma_tableaux_selection_stays_face_up(g: KlondikeGame, index: usize, len: usize)
    requires
        g.wf(),
        g.holding is None,
        index < 7,
    ensures
        g.spec_is_valid_selection(GameSelection::Tableaux(index, TableauxSelection::Cards(len)))
            <==> (g.tableaux@[index as int].cards@.len() > 0 && 1 <= len
            <= g.tableaux@[index as int].revealed_len),
        len < usize::MAX ==> g.spec_try_select(
            GameSelection::Tableaux(index, TableauxSelection::Cards((len + 1) as usize)),
        ) == if g.tableaux@[index as int].cards@.len() > 0 && len + 1
            <= g.tableaux@[index as int].revealed_len {
            GameSelection::Tableaux(index, TableauxSelection::Cards((len + 1) as usize))
        } else {
            g.selection
        },
{
}

/// Where held cards may go: never to the stock; to the talon only when they came from it; to a
/// foundation only as a single card whose suit is that foundation's; onto a tableaux with cards
/// only when its top card is face up and of the other color than the first held card (a red
/// card on a black one or a black card on a red one).
pub proof fn lemma_held_cards_go_by_suit_and_color(g: KlondikeGame, selection: GameSelection)
    requires
        g.wf(),
        g.holding is Some,
        spec_selection_in_range(selection),
        g.spec_is_valid_selection(selection),
    ensures
        !(selection is Stock),
        selection is Talon ==> g.holding.unwrap().source == GameArea::Talon,
        selection matches GameSelection::Foundation(index) ==> {
            let held = g.holding.unwrap().cards@;
            &&& held.len() == 1
            &&& held[0].suit.spec_index() == index
        },
        selection matches GameSelection::Tableaux(index, _) ==> {
            let held = g.holding.unwrap().cards@;
            let pile = g.tableaux@[index as int].cards@;
            &&& held.len() > 0
            &&& pile.len() > 0 ==> {
                let red_top = pile.last().suit == Suit::Hearts || pile.last().suit == Suit::Diamonds;
                let red_card = held[0].suit == Suit::Hearts || held[0].suit == Suit::Diamonds;
                &&& pile.last().face_up
                &&& red_top != red_card
            }
        },
{
}

} // verus!
