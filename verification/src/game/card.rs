//! Cards that know whether they face up.

use vstd::prelude::*;

use super::Error;
use core::cmp::Ordering;
use vstd::std_specs::cmp::PartialOrdSpecImpl;
use crate::utils::{decimal, spec_decimal};

verus! {

/// The color of a suit.
#[derive(Copy, Clone, Debug, PartialEq, Eq, Structural)]
pub enum Color {
    Black,
    Red,
}

/// The rank of a card, 1 (Ace) to 13 (King).
#[derive(Copy, Clone, Debug, PartialEq, Eq, Structural, PartialOrd, Ord)]
pub struct Rank(pub u8);

impl Rank {
    /// The rank of `value`, which must be in `1..=13`.
    pub fn new(value: u8) -> (r: Result<Rank, Error>)
        ensures
            1 <= value <= 13 ==> r == Ok::<Rank, Error>(Rank(value)),
            !(1 <= value <= 13) ==> r == Err::<Rank, Error>(Error::InvalidRank { value }),
    {
        if 1 <= value && value <= 13 {
            Ok(Rank(value))
        } else {
            Err(Error::InvalidRank { value })
        }
    }

    /// The label printed on a card: `A`, `2` to `10`, `J`, `Q`, `K`; `E` for a value that is
    /// no rank.
    pub open spec fn spec_label(self) -> Seq<char> {
        if self.0 == 1 {
            seq!['A']
        } else if 2 <= self.0 <= 10 {
            spec_decimal(self.0 as nat)
        } else if self.0 == 11 {
            seq!['J']
        } else if self.0 == 12 {
            seq!['Q']
        } else if self.0 == 13 {
            seq!['K']
        } else {
            seq!['E']
        }
    }

    /// The label printed on a card.
    pub fn label(&self) -> (s: String)
        ensures
            s@ == self.spec_label(),
    {
        proof {
            reveal_strlit("A");
            reveal_strlit("J");
            reveal_strlit("Q");
            reveal_strlit("K");
            reveal_strlit("E");
        }
        if self.0 == 1 {
            String::from_str("A")
        } else if 2 <= self.0 && self.0 <= 10 {
            decimal(self.0 as u64)
        } else if self.0 == 11 {
            String::from_str("J")
        } else if self.0 == 12 {
            String::from_str("Q")
        } else if self.0 == 13 {
            String::from_str("K")
        } else {
            String::from_str("E")
        }
    }

    /// The ranks that `values` yields: the values `1` up to, but not including, `13`.
    pub open spec fn spec_values() -> Seq<Rank> {
        Seq::new(12, |i: int| Rank((i + 1) as u8))
    }

    /// The ranks from `1` up to, but not including, `13`.
    pub fn values() -> (ranks: Vec<Rank>)
        ensures
            ranks@ == Rank::spec_values(),
    {
        let mut ranks: Vec<Rank> = Vec::new();
        let mut value: u8 = 1;
        while value < 13
            invariant
                1 <= value <= 13,
                ranks@ == Seq::new((value - 1) as nat, |i: int| Rank((i + 1) as u8)),
            decreases 13 - value,
        {
            ranks.push(Rank(value));
            value = value + 1;
            assert(ranks@ =~= Seq::new((value - 1) as nat, |i: int| Rank((i + 1) as u8)));
        }
        assert(ranks@ =~= Rank::spec_values());
        ranks
    }

    /// Whether `other` is the rank directly above this one.
    pub open spec fn spec_is_followed_by(self, other: Rank) -> bool {
        self.0 + 1 == other.0
    }

    /// Whether `other` is the rank directly above this one.
    pub fn is_followed_by(&self, other: Rank) -> (b: bool)
        ensures
            b == self.spec_is_followed_by(other),
    {
        self.0 as u16 + 1 == other.0 as u16
    }

    /// Whether this is an Ace.
    pub fn is_ace(&self) -> (b: bool)
        ensures
            b == (self.0 == 1),
    {
        self.0 == 1
    }

    /// Whether this is a King.
    pub fn is_king(&self) -> (b: bool)
        ensures
            b == (self.0 == 13),
    {
        self.0 == 13
    }
}

/// The suit of a card.
#[derive(Copy, Clone, Debug, PartialEq, Eq, Structural, Hash)]
pub enum Suit {
    Clubs,
    Diamonds,
    Hearts,
    Spades,
}

impl Suit {
    pub open spec fn spec_color(self) -> Color {
        match self {
            Suit::Clubs | Suit::Spades => Color::Black,
            Suit::Diamonds | Suit::Hearts => Color::Red,
        }
    }

    /// Clubs and spades are black; diamonds and hearts are red.
    pub fn color(&self) -> (c: Color)
        ensures
            c == self.spec_color(),
    {
        match self {
            Suit::Clubs | Suit::Spades => Color::Black,
            Suit::Diamonds | Suit::Hearts => Color::Red,
        }
    }

    pub open spec fn spec_symbol(self) -> Seq<char> {
        match self {
            Suit::Clubs => seq!['\u{2663}'],
            Suit::Diamonds => seq!['\u{2666}'],
            Suit::Hearts => seq!['\u{2665}'],
            Suit::Spades => seq!['\u{2660}'],
        }
    }

    /// The symbol of the suit as printed on a card.
    pub fn symbol(&self) -> (s: String)
        ensures
            s@ == self.spec_symbol(),
    {
        proof {
            reveal_strlit("\u{2663}");
            reveal_strlit("\u{2666}");
            reveal_strlit("\u{2665}");
            reveal_strlit("\u{2660}");
        }
        match self {
            Suit::Clubs => String::from_str("\u{2663}"),
            Suit::Diamonds => String::from_str("\u{2666}"),
            Suit::Hearts => String::from_str("\u{2665}"),
            Suit::Spades => String::from_str("\u{2660}"),
        }
    }

    /// The canonical order of the suits: spades, hearts, clubs, diamonds.
    pub open spec fn spec_values() -> Seq<Suit> {
        seq![Suit::Spades, Suit::Hearts, Suit::Clubs, Suit::Diamonds]
    }

    /// The suits in canonical order.
    pub fn values() -> (suits: Vec<Suit>)
        ensures
            suits@ == Suit::spec_values(),
    {
        let suits = vec![Suit::Spades, Suit::Hearts, Suit::Clubs, Suit::Diamonds];
        assert(suits@ =~= Suit::spec_values());
        suits
    }

    /// The suits in canonical order.
    pub fn iterator() -> (suits: Vec<Suit>)
        ensures
            suits@ == Suit::spec_values(),
    {
        Suit::values()
    }

    /// The position of the suit in the canonical order, which is also the index of its
    /// foundation.
    pub open spec fn spec_index(self) -> usize {
        match self {
            Suit::Spades => 0,
            Suit::Hearts => 1,
            Suit::Clubs => 2,
            Suit::Diamonds => 3,
        }
    }

    /// The position of the suit in the canonical order.
    pub fn index(&self) -> (i: usize)
        ensures
            i == self.spec_index(),
            Suit::spec_values()[i as int] == *self,
    {
        match self {
            Suit::Spades => 0,
            Suit::Hearts => 1,
            Suit::Clubs => 2,
            Suit::Diamonds => 3,
        }
    }
}

/// A playing card, face up or face down.
#[derive(Copy, Clone, Debug, PartialEq, Eq, Structural)]
pub struct Card {
    pub face_up: bool,
    pub rank: Rank,
    pub suit: Suit,
}

impl Card {
    pub open spec fn spec_color(self) -> Color {
        self.suit.spec_color()
    }

    /// The color of the card's suit.
    pub fn color(&self) -> (c: Color)
        ensures
            c == self.spec_color(),
    {
        self.suit.color()
    }

    /// The same card, face up.
    pub fn face_up(self) -> (c: Card)
        ensures
            c == (Card { face_up: true, ..self }),
    {
        let mut card = self;
        card.face_up = true;
        card
    }

    /// The same card, face down.
    pub fn face_down(self) -> (c: Card)
        ensures
            c == (Card { face_up: false, ..self }),
    {
        let mut card = self;
        card.face_up = false;
        card
    }
}

/// Cards of one suit are ordered by rank; cards of different suits are not ordered.
impl PartialOrd for Card {
    fn partial_cmp(&self, other: &Card) -> (r: Option<Ordering>) {
        if self.suit == other.suit {
            if self.rank.0 < other.rank.0 {
                Some(Ordering::Less)
            } else if self.rank.0 == other.rank.0 {
                Some(Ordering::Equal)
            } else {
                Some(Ordering::Greater)
            }
        } else {
            None
        }
    }
}

impl PartialOrdSpecImpl for Card {
    open spec fn obeys_partial_cmp_spec() -> bool {
        true
    }

    open spec fn partial_cmp_spec(&self, other: &Card) -> Option<Ordering> {
        if self.suit == other.suit {
            if self.rank.0 < other.rank.0 {
                Some(Ordering::Less)
            } else if self.rank.0 == other.rank.0 {
                Some(Ordering::Equal)
            } else {
                Some(Ordering::Greater)
            }
        } else {
            None
        }
    }
}

/// The label of a rank names it: no two ranks from 1 to 13 share a label; the ranks 2 to 10 are
/// labelled by their value in decimal; the Ace, Jack, Queen and King (1, 11, 12, 13) by their
/// initial letter.
pub proof fn lemma_rank_labels_name_ranks()
    ensures
        forall|a: Rank, b: Rank|
            1 <= a.0 <= 13 && 1 <= b.0 <= 13 && #[trigger] a.spec_label() == #[trigger] b.spec_label()
                ==> a == b,
        forall|r: Rank| 2 <= r.0 <= 10 ==> #[trigger] r.spec_label() == spec_decimal(r.0 as nat),
        Rank(1).spec_label() == seq!['A'],
        Rank(11).spec_label() == seq!['J'],
        Rank(12).spec_label() == seq!['Q'],
        Rank(13).spec_label() == seq!['K'],
{
    assert(spec_decimal(10) == seq!['1', '0']) by {
        assert(spec_decimal(1) == seq!['1']);
        assert(spec_decimal(10) =~= seq!['1'].push('0'));
    }
    assert forall|a: Rank, b: Rank|
        1 <= a.0 <= 13 && 1 <= b.0 <= 13 && #[trigger] a.spec_label() == #[trigger] b.spec_label()
            implies a == b by {
        let la = a.spec_label();
        let lb = b.spec_label();
        assert(la.len() == lb.len());
        assert(la[0] == lb[0]);
        if la.len() == 2 {
            assert(la[1] == lb[1]);
        }
    }
}

/// Suits are what they name: each suit has its own one-character symbol; its index is its
/// position among the suits in canonical order; hearts and diamonds are red, clubs and spades
/// black.
pub proof fn lemma_suits_are_distinct()
    ensures
        forall|a: Suit, b: Suit| #[trigger] a.spec_symbol() == #[trigger] b.spec_symbol() ==> a == b,
        forall|s: Suit| (#[trigger] s.spec_symbol()).len() == 1,
        forall|s: Suit| #[trigger] s.spec_index() < 4,
        forall|s: Suit| Suit::spec_values()[#[trigger] s.spec_index() as int] == s,
        forall|s: Suit|
            (#[trigger] s.spec_color() == Color::Red) <==> (s == Suit::Hearts || s == Suit::Diamonds),
{
    assert forall|a: Suit, b: Suit| #[trigger] a.spec_symbol() == #[trigger] b.spec_symbol() implies a
        == b by {
        assert(a.spec_symbol()[0] == b.spec_symbol()[0]);
    }
}

} // verus!
