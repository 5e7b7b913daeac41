//! Playing cards: colors, ranks, suits.

use vstd::prelude::*;

verus! {

/// The color of a card, determined by its suit.
#[derive(Copy, Clone, Debug, PartialEq, Eq, Structural)]
pub enum Color {
    Black,
    Red,
}

/// The rank of a card, from Ace (1) to King (13).
#[derive(Copy, Clone, Debug, PartialEq, Eq, Structural, PartialOrd, Ord, Hash)]
pub enum Rank {
    Ace,
    Two,
    Three,
    Four,
    Five,
    Six,
    Seven,
    Eight,
    Nine,
    Ten,
    Jack,
    Queen,
    King,
}

impl Rank {
    /// The numeric value of the rank: Ace is 1, King is 13.
    pub open spec fn spec_value(self) -> u8 {
        match self {
            Rank::Ace => 1,
            Rank::Two => 2,
            Rank::Three => 3,
            Rank::Four => 4,
            Rank::Five => 5,
            Rank::Six => 6,
            Rank::Seven => 7,
            Rank::Eight => 8,
            Rank::Nine => 9,
            Rank::Ten => 10,
            Rank::Jack => 11,
            Rank::Queen => 12,
            Rank::King => 13,
        }
    }

    /// The rank whose value is `value`, if any.
    pub open spec fn spec_from_value(value: u8) -> Option<Rank> {
        if value == 1 {
            Some(Rank::Ace)
        } else if value == 2 {
            Some(Rank::Two)
        } else if value == 3 {
            Some(Rank::Three)
        } else if value == 4 {
            Some(Rank::Four)
        } else if value == 5 {
            Some(Rank::Five)
        } else if value == 6 {
            Some(Rank::Six)
        } else if value == 7 {
            Some(Rank::Seven)
        } else if value == 8 {
            Some(Rank::Eight)
        } else if value == 9 {
            Some(Rank::Nine)
        } else if value == 10 {
            Some(Rank::Ten)
        } else if value == 11 {
            Some(Rank::Jack)
        } else if value == 12 {
            Some(Rank::Queen)
        } else if value == 13 {
            Some(Rank::King)
        } else {
            None
        }
    }

    /// Numeric value of this rank (Ace is 1, King is 13).
    pub fn value(self) -> (v: u8)
        ensures
            v == self.spec_value(),
            1 <= v <= 13,
    {
        match self {
            Rank::Ace => 1,
            Rank::Two => 2,
            Rank::Three => 3,
            Rank::Four => 4,
            Rank::Five => 5,
            Rank::Six => 6,
            Rank::Seven => 7,
            Rank::Eight => 8,
            Rank::Nine => 9,
            Rank::Ten => 10,
            Rank::Jack => 11,
            Rank::Queen => 12,
            Rank::King => 13,
        }
    }

    /// The rank with the given numeric value, or `None` outside `1..=13`.
    pub fn from_value(value: u8) -> (r: Option<Rank>)
        ensures
            r == Rank::spec_from_value(value),
            r is Some <==> 1 <= value <= 13,
            r matches Some(rank) ==> rank.spec_value() == value,
    {
        if value == 1 {
            Some(Rank::Ace)
        } else if value == 2 {
            Some(Rank::Two)
        } else if value == 3 {
            Some(Rank::Three)
        } else if value == 4 {
            Some(Rank::Four)
        } else if value == 5 {
            Some(Rank::Five)
        } else if value == 6 {
            Some(Rank::Six)
        } else if value == 7 {
            Some(Rank::Seven)
        } else if value == 8 {
            Some(Rank::Eight)
        } else if value == 9 {
            Some(Rank::Nine)
        } else if value == 10 {
            Some(Rank::Ten)
        } else if value == 11 {
            Some(Rank::Jack)
        } else if value == 12 {
            Some(Rank::Queen)
        } else if value == 13 {
            Some(Rank::King)
        } else {
            None
        }
    }

    /// Whether `other` is the rank directly above this one.
    pub open spec fn spec_is_followed_by(self, other: Rank) -> bool {
        self.spec_value() + 1 == other.spec_value()
    }

    /// Whether `other` is the rank directly above this one.
    pub fn is_followed_by(self, other: Rank) -> (b: bool)
        ensures
            b == self.spec_is_followed_by(other),
    {
        self.value() + 1 == other.value()
    }

    /// All ranks in increasing order.
    pub open spec fn spec_values() -> Seq<Rank> {
        Seq::new(13, |i: int| Rank::spec_from_value((i + 1) as u8).unwrap())
    }

    /// All ranks, from Ace to King.
    pub fn values() -> (ranks: Vec<Rank>)
        ensures
            ranks@ == Rank::spec_values(),
            ranks@.len() == 13,
            forall|i: int| 0 <= i < 13 ==> #[trigger] ranks@[i].spec_value() == i + 1,
    {
        let mut ranks: Vec<Rank> = Vec::new();
        let mut value: u8 = 1;
        while value < 14
            invariant
                1 <= value <= 14,
                ranks@.len() == value - 1,
                forall|i: int|
                    0 <= i < ranks@.len() ==> #[trigger] ranks@[i] == Rank::spec_from_value(
                        (i + 1) as u8,
                    ).unwrap(),
            decreases 14 - value,
        {
            let rank = Rank::from_value(value);
            ranks.push(rank.unwrap());
            value = value + 1;
        }
        assert(ranks@ =~= Rank::spec_values());
        ranks
    }

    /// The label of the rank as printed on a card.
    pub open spec fn spec_label(self) -> Seq<char> {
        match self {
            Rank::Ace => seq!['A'],
            Rank::Two => seq!['2'],
            Rank::Three => seq!['3'],
            Rank::Four => seq!['4'],
            Rank::Five => seq!['5'],
            Rank::Six => seq!['6'],
            Rank::Seven => seq!['7'],
            Rank::Eight => seq!['8'],
            Rank::Nine => seq!['9'],
            Rank::Ten => seq!['1', '0'],
            Rank::Jack => seq!['J'],
            Rank::Queen => seq!['Q'],
            Rank::King => seq!['K'],
        }
    }

    /// The label of the rank as printed on a card: `A`, `2` to `10`, `J`, `Q`, `K`.
    pub fn label(self) -> (s: String)
        ensures
            s@ == self.spec_label(),
    {
        let text = match self {
            Rank::Ace => "A",
            Rank::Two => "2",
            Rank::Three => "3",
            Rank::Four => "4",
            Rank::Five => "5",
            Rank::Six => "6",
            Rank::Seven => "7",
            Rank::Eight => "8",
            Rank::Nine => "9",
            Rank::Ten => "10",
            Rank::Jack => "J",
            Rank::Queen => "Q",
            Rank::King => "K",
        };
        proof {
            reveal_strlit("A");
            reveal_strlit("2");
            reveal_strlit("3");
            reveal_strlit("4");
            reveal_strlit("5");
            reveal_strlit("6");
            reveal_strlit("7");
            reveal_strlit("8");
            reveal_strlit("9");
            reveal_strlit("10");
            reveal_strlit("J");
            reveal_strlit("Q");
            reveal_strlit("K");
        }
        String::from_str(text)
    }
}

/// The suit of a card.
#[derive(Copy, Clone, Debug, PartialEq, Eq, Structural, PartialOrd, Ord, Hash)]
pub enum Suit {
    Spades,
    Hearts,
    Diamonds,
    Clubs,
}

impl Suit {
    /// The numeric index of the suit: Spades 0, Hearts 1, Diamonds 2, Clubs 3.
    pub open spec fn spec_index(self) -> u8 {
        match self {
            Suit::Spades => 0,
            Suit::Hearts => 1,
            Suit::Diamonds => 2,
            Suit::Clubs => 3,
        }
    }

    /// The suit with the given index, if any.
    pub open spec fn spec_from_index(index: u8) -> Option<Suit> {
        if index == 0 {
            Some(Suit::Spades)
        } else if index == 1 {
            Some(Suit::Hearts)
        } else if index == 2 {
            Some(Suit::Diamonds)
        } else if index == 3 {
            Some(Suit::Clubs)
        } else {
            None
        }
    }

    /// Numeric index of the suit (Spades 0, Hearts 1, Diamonds 2, Clubs 3).
    pub fn index(self) -> (i: u8)
        ensures
            i == self.spec_index(),
            i < 4,
    {
        match self {
            Suit::Spades => 0,
            Suit::Hearts => 1,
            Suit::Diamonds => 2,
            Suit::Clubs => 3,
        }
    }

    /// The suit with the given index, or `None` when `index >= 4`.
    pub fn from_index(index: u8) -> (s: Option<Suit>)
        ensures
            s == Suit::spec_from_index(index),
            s is Some <==> index < 4,
            s matches Some(suit) ==> suit.spec_index() == index,
    {
        if index == 0 {
            Some(Suit::Spades)
        } else if index == 1 {
            Some(Suit::Hearts)
        } else if index == 2 {
            Some(Suit::Diamonds)
        } else if index == 3 {
            Some(Suit::Clubs)
        } else {
            None
        }
    }

    pub open spec fn spec_color(self) -> Color {
        match self {
            Suit::Clubs | Suit::Spades => Color::Black,
            Suit::Diamonds | Suit::Hearts => Color::Red,
        }
    }

    /// Clubs and spades are black; diamonds and hearts are red.
    pub fn color(self) -> (c: Color)
        ensures
            c == self.spec_color(),
    {
        match self {
            Suit::Clubs | Suit::Spades => Color::Black,
            Suit::Diamonds | Suit::Hearts => Color::Red,
        }
    }

    /// All suits in index order.
    pub open spec fn spec_values() -> Seq<Suit> {
        seq![Suit::Spades, Suit::Hearts, Suit::Diamonds, Suit::Clubs]
    }

    /// All suits, in index order: spades, hearts, diamonds, clubs.
    pub fn values() -> (suits: Vec<Suit>)
        ensures
            suits@ == Suit::spec_values(),
    {
        let suits = vec![Suit::Spades, Suit::Hearts, Suit::Diamonds, Suit::Clubs];
        assert(suits@ =~= Suit::spec_values());
        suits
    }

    pub open spec fn spec_symbol(self) -> Seq<char> {
        match self {
            Suit::Spades => seq!['\u{2660}'],
            Suit::Hearts => seq!['\u{2665}'],
            Suit::Diamonds => seq!['\u{2666}'],
            Suit::Clubs => seq!['\u{2663}'],
        }
    }

    /// The symbol of the suit as printed on a card.
    pub fn symbol(self) -> (s: String)
        ensures
            s@ == self.spec_symbol(),
    {
        let text = match self {
            Suit::Spades => "\u{2660}",
            Suit::Hearts => "\u{2665}",
            Suit::Diamonds => "\u{2666}",
            Suit::Clubs => "\u{2663}",
        };
        proof {
            reveal_strlit("\u{2660}");
            reveal_strlit("\u{2665}");
            reveal_strlit("\u{2666}");
            reveal_strlit("\u{2663}");
        }
        String::from_str(text)
    }
}

/// A playing card.
#[derive(Copy, Clone, Debug, PartialEq, Eq, Structural, PartialOrd, Ord)]
pub struct Card {
    pub suit: Suit,
    pub rank: Rank,
}

impl Card {
    pub open spec fn spec_color(self) -> Color {
        self.suit.spec_color()
    }

    /// The color of the card's suit.
    pub fn color(&self) -> (c: Color)
        ensures
            c == self.spec_color(),
    {
        self.suit.color()
    }
}

/// The label of a rank names it: no two ranks share a label; the ranks Two to Ten are labelled
/// by their value in decimal; the Ace, Jack, Queen and King by their initial letter.
pub proof fn lemma_rank_labels_name_ranks()
    ensures
        forall|a: Rank, b: Rank| #[trigger] a.spec_label() == #[trigger] b.spec_label() ==> a == b,
        forall|r: Rank|
            2 <= r.spec_value() <= 10 ==> #[trigger] r.spec_label() == crate::utils::spec_decimal(
                r.spec_value() as nat,
            ),
        Rank::Ace.spec_label() == seq!['A'],
        Rank::Jack.spec_label() == seq!['J'],
        Rank::Queen.spec_label() == seq!['Q'],
        Rank::King.spec_label() == seq!['K'],
{
    assert forall|a: Rank, b: Rank| #[trigger] a.spec_label() == #[trigger] b.spec_label() implies a
        == b by {
        let la = a.spec_label();
        let lb = b.spec_label();
        assert(la.len() == lb.len());
        assert(la[0] == lb[0]);
        if la.len() == 2 {
            assert(la[1] == lb[1]);
        }
    }
    assert(crate::utils::spec_decimal(10) == seq!['1', '0']) by {
        assert(crate::utils::spec_decimal(1) == seq!['1']);
        assert(crate::utils::spec_decimal(10) =~= seq!['1'].push('0'));
    }
}

/// Ranks and suits are what they name: each rank has its own value from 1 to 13, and the ranks
/// listed in order have the values 1 to 13; each suit has its own index below 4, found again
/// from the index, and its own one-character symbol; hearts and diamonds are red, clubs and
/// spades black.
pub proof fn lemma_ranks_and_suits()
    ensures
        forall|r: Rank| 1 <= #[trigger] r.spec_value() <= 13,
        forall|r: Rank| Rank::spec_from_value(#[trigger] r.spec_value()) == Some(r),
        forall|a: Rank, b: Rank| #[trigger] a.spec_value() == #[trigger] b.spec_value() ==> a == b,
        forall|i: int| 0 <= i < 13 ==> #[trigger] Rank::spec_values()[i].spec_value() == i + 1,
        forall|s: Suit| #[trigger] s.spec_index() < 4,
        forall|s: Suit| Suit::spec_from_index(#[trigger] s.spec_index()) == Some(s),
        forall|s: Suit| Suit::spec_values()[#[trigger] s.spec_index() as int] == s,
        forall|a: Suit, b: Suit| #[trigger] a.spec_symbol() == #[trigger] b.spec_symbol() ==> a == b,
        forall|s: Suit| (#[trigger] s.spec_symbol()).len() == 1,
        forall|s: Suit|
            (#[trigger] s.spec_color() == Color::Red) <==> (s == Suit::Hearts || s == Suit::Diamonds),
{
    assert forall|a: Suit, b: Suit| #[trigger] a.spec_symbol() == #[trigger] b.spec_symbol() implies a
        == b by {
        assert(a.spec_symbol()[0] == b.spec_symbol()[0]);
    }
}

} // verus!
