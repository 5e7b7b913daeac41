//! The areas of a Klondike table (stock, talon, foundations, tableaux) and what they share.

use vstd::prelude::*;

use super::card::{Card, Suit};
use self::any::AnyArea;
use self::area_list::lemma_snapshot_determines;

pub mod any;
pub mod area_list;
pub mod foundation;
pub mod stock;
pub mod tableaux;
pub mod talon;

verus! {

/// The kinds of errors that operations on areas report.
#[derive(Copy, Clone, Debug, PartialEq, Eq, Structural)]
pub enum ErrorKind {
    InvalidCard,
    TooManyCards,
    NotSupported,
    NothingToSelect,
    AlreadyHeld,
    NothingHeld,
    MaxSelection,
    MinSelection,
}

/// Errors reported by operations on areas.
#[derive(Debug)]
pub enum Error {
    /// The card cannot be placed here.
    InvalidCard { message: String },
    /// More cards than the area accepts at once.
    TooManyCards { message: String },
    /// The area does not support the operation.
    NotSupported { message: String },
    /// There is nothing in the area to select.
    NothingToSelect { message: String },
    /// Cards are already held.
    AlreadyHeld,
    /// No cards are held.
    NothingHeld,
    /// The selection cannot grow.
    MaxSelection,
    /// The selection cannot shrink.
    MinSelection,
}

impl Error {
    pub open spec fn kind(&self) -> ErrorKind {
        match self {
            Error::InvalidCard { .. } => ErrorKind::InvalidCard,
            Error::TooManyCards { .. } => ErrorKind::TooManyCards,
            Error::NotSupported { .. } => ErrorKind::NotSupported,
            Error::NothingToSelect { .. } => ErrorKind::NothingToSelect,
            Error::AlreadyHeld => ErrorKind::AlreadyHeld,
            Error::NothingHeld => ErrorKind::NothingHeld,
            Error::MaxSelection => ErrorKind::MaxSelection,
            Error::MinSelection => ErrorKind::MinSelection,
        }
    }

    /// The error as displayed: what went wrong and, where the kind has one, `: ` and the
    /// message.
    pub open spec fn spec_text(&self) -> Seq<char> {
        match self {
            Error::InvalidCard { message } => "Invalid card: "@ + message@,
            Error::TooManyCards { message } => "Too many cards: "@ + message@,
            Error::NotSupported { message } => "Operation not supported: "@ + message@,
            Error::NothingToSelect { message } => "Nothing to select: "@ + message@,
            Error::AlreadyHeld => "Cards already held"@,
            Error::NothingHeld => "No cards held"@,
            Error::MaxSelection => "Maximum selection"@,
            Error::MinSelection => "Minimum selection"@,
        }
    }

    /// The error as displayed (see `spec_text`).
    pub fn text(&self) -> (s: String)
        ensures
            s@ == self.spec_text(),
    {
        let (prefix, message) = match self {
            Error::InvalidCard { message } => ("Invalid card: ", Some(message)),
            Error::TooManyCards { message } => ("Too many cards: ", Some(message)),
            Error::NotSupported { message } => ("Operation not supported: ", Some(message)),
            Error::NothingToSelect { message } => ("Nothing to select: ", Some(message)),
            Error::AlreadyHeld => ("Cards already held", None),
            Error::NothingHeld => ("No cards held", None),
            Error::MaxSelection => ("Maximum selection", None),
            Error::MinSelection => ("Minimum selection", None),
        };
        let mut s = String::from_str(prefix);
        match message {
            Some(m) => s.append(m.as_str()),
            None => {},
        }
        s
    }

    /// The error of the given kind, with `message` as its description where the kind has one.
    pub fn new(kind: ErrorKind, message: &str) -> (e: Error)
        ensures
            e.kind() == kind,
            match e {
                Error::InvalidCard { message: m } => m@ == message@,
                Error::TooManyCards { message: m } => m@ == message@,
                Error::NotSupported { message: m } => m@ == message@,
                Error::NothingToSelect { message: m } => m@ == message@,
                _ => true,
            },
    {
        match kind {
            ErrorKind::InvalidCard => Error::InvalidCard { message: String::from_str(message) },
            ErrorKind::TooManyCards => Error::TooManyCards { message: String::from_str(message) },
            ErrorKind::NotSupported => Error::NotSupported { message: String::from_str(message) },
            ErrorKind::NothingToSelect => Error::NothingToSelect {
                message: String::from_str(message),
            },
            ErrorKind::AlreadyHeld => Error::AlreadyHeld,
            ErrorKind::NothingHeld => Error::NothingHeld,
            ErrorKind::MaxSelection => Error::MaxSelection,
            ErrorKind::MinSelection => Error::MinSelection,
        }
    }
}

/// The outcome of an operation that moves a value: either it moved, or it stayed, with the
/// value handed back and the reason.
#[derive(Debug)]
pub enum MoveResult<T, U> {
    Moved(T),
    Unmoved(U, Error),
}

impl<T, U> MoveResult<T, U> {
    /// Forgets the value that did not move.
    pub fn into_result(self) -> (r: Result<T, Error>)
        ensures
            self matches MoveResult::Moved(v) ==> r == Ok::<T, Error>(v),
            self matches MoveResult::Unmoved(_, e) ==> r == Err::<T, Error>(e),
    {
        match self {
            MoveResult::Moved(value) => Ok(value),
            MoveResult::Unmoved(_, error) => Err(error),
        }
    }
}

/// Identifies an area of the table.
#[derive(Copy, Clone, Debug, PartialEq, Eq, Structural, PartialOrd, Ord, Hash)]
pub enum AreaId {
    Stock,
    Talon,
    Foundation(Suit),
    Tableaux(u8),
}

/// Cards picked up from an area, with the area they came from.
#[derive(Debug)]
pub struct Held {
    pub source: AreaId,
    pub cards: Vec<Card>,
}

/// What activating the selected area asks the table to do.
#[derive(Copy, Clone, Debug, PartialEq, Eq, Structural)]
pub enum Action {
    /// Move this many cards from the stock to the talon.
    Draw(usize),
    /// Move all cards from the talon back to the stock.
    Restock,
}

/// The two areas after an attempt to move the selection: the one that is selected and the one
/// that is not.
#[derive(Debug)]
pub struct SelectionMove {
    pub selected: AnyArea,
    pub unselected: AnyArea,
}

/// Whether the selection can move from `source` to `target`: with cards held, the target must
/// accept them; otherwise it must be selectable.
pub open spec fn spec_selection_can_move(source: AnyArea, target: AnyArea) -> bool {
    match source.spec_held_from() {
        Some(from) => target.spec_accepts_held(from, source.spec_hand()),
        None => target.spec_can_select(),
    }
}

/// Moves the selection, with any held cards, from `source` to `target` when the target allows
/// it (see `spec_selection_can_move`): the target is then selected, holding the cards, and the
/// source is not. Otherwise the source keeps or takes back its cards and stays selected, and the
/// target stays as it was.
pub fn move_selection(source: AnyArea, target: AnyArea) -> (r: MoveResult<
    SelectionMove,
    SelectionMove,
>)
    requires
        source.wf(),
        source.spec_selected(),
        target.wf(),
        !target.spec_selected(),
    ensures
        r is Moved <==> spec_selection_can_move(source, target),
        match r {
            MoveResult::Moved(m) => {
                &&& m.selected.wf() && m.unselected.wf()
                &&& m.selected.spec_selected() && !m.unselected.spec_selected()
                &&& m.selected.spec_id() == target.spec_id()
                &&& m.selected.spec_same_kind(&target)
                &&& m.unselected.spec_id() == source.spec_id()
                &&& m.unselected.spec_same_kind(&source)
                &&& m.selected.spec_held_from() == source.spec_held_from()
                &&& m.selected.spec_cards() == target.spec_cards() + source.spec_hand()
                &&& m.unselected.spec_cards() + source.spec_hand() == source.spec_cards()
            },
            MoveResult::Unmoved(m, _) => {
                &&& m.selected.wf() && m.unselected.wf()
                &&& m.selected.spec_selected() && !m.unselected.spec_selected()
                &&& m.selected.spec_id() == source.spec_id()
                &&& m.selected.spec_same_kind(&source)
                &&& m.unselected.spec_id() == target.spec_id()
                &&& m.unselected.spec_same_kind(&target)
                &&& m.selected.spec_cards() == source.spec_cards()
                &&& m.selected.spec_held_from() == source.spec_held_from()
                &&& m.selected.spec_hand() == source.spec_hand()
                &&& m.unselected.spec_cards() == target.spec_cards()
                &&& m.unselected.spec_snapshot() == target.spec_snapshot()
            },
        },
{
    let mut source = source;
    let mut target = target;
    let ghost source0 = source;
    let ghost target0 = target;
    let snapshot = source.snapshot();
    let held = source.deselect();
    match held {
        Some(held) => {
            match target.select_with_held(held) {
                MoveResult::Moved(()) => MoveResult::Moved(
                    SelectionMove { selected: target, unselected: source },
                ),
                MoveResult::Unmoved(held, error) => {
                    let ghost rest = source.spec_cards();
                    match source.select_with_held(held) {
                        MoveResult::Moved(()) => {
                            proof {
                                let hand = source0.spec_hand();
                                assert(source.spec_cards() == rest + hand);
                                assert(source.spec_cards() == source0.spec_cards());
                                assert(source.spec_cards().skip(rest.len() as int) =~= hand);
                                assert(source.spec_hand() == source0.spec_hand());
                            }
                        },
                        MoveResult::Unmoved(held, _) => {
                            source.restore(snapshot, Some(held));
                            proof {
                                lemma_snapshot_determines(source, source0);
                            }
                        },
                    }
                    proof {
                        lemma_snapshot_determines(target, target0);
                    }
                    MoveResult::Unmoved(SelectionMove { selected: source, unselected: target }, error)
                },
            }
        },
        None => {
            match target.select() {
                Ok(()) => MoveResult::Moved(SelectionMove { selected: target, unselected: source }),
                Err(error) => {
                    match source.select() {
                        Ok(()) => {
                            proof {
                                assert(source.spec_hand() =~= source0.spec_hand());
                            }
                        },
                        Err(_) => {
                            source.restore(snapshot, None);
                            proof {
                                lemma_snapshot_determines(source, source0);
                            }
                        },
                    }
                    proof {
                        lemma_snapshot_determines(target, target0);
                    }
                    MoveResult::Unmoved(SelectionMove { selected: source, unselected: target }, error)
                },
            }
        },
    }
}

} // verus!
