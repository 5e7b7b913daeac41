//! Drawing cards on a screen of character cells in color pairs: every drawing is a list of
//! texts printed at given cells, which the program puts on the screen when it refreshes it.

use vstd::prelude::*;

use super::coords::Coords;
use crate::game::card::{Card, Color};
use crate::game::table::CardStack;

verus! {

/// The color pairs (foreground on background) of the screen.
#[derive(Copy, Clone, Debug, PartialEq, Eq, Structural)]
pub enum ColorPair {
    /// White on black, for frames and the background.
    Default,
    /// White on black, for black cards.
    CardBlack,
    /// Red on black, for red cards.
    CardRed,
    /// Blue on black, for the backs of cards.
    CardBack,
}

impl ColorPair {
    /// The number the screen knows the pair by.
    pub open spec fn spec_number(self) -> i16 {
        match self {
            ColorPair::Default => 1,
            ColorPair::CardBlack => 2,
            ColorPair::CardRed => 3,
            ColorPair::CardBack => 4,
        }
    }

    /// The number the screen knows the pair by.
    pub fn number(self) -> (n: i16)
        ensures
            n == self.spec_number(),
    {
        match self {
            ColorPair::Default => 1,
            ColorPair::CardBlack => 2,
            ColorPair::CardRed => 3,
            ColorPair::CardBack => 4,
        }
    }
}

/// The pair a card is printed in: by the color of its suit.
pub open spec fn spec_card_color_pair(card: Card) -> ColorPair {
    match card.spec_color() {
        Color::Black => ColorPair::CardBlack,
        Color::Red => ColorPair::CardRed,
    }
}

/// The pair a card is printed in (see `spec_card_color_pair`).
pub fn card_color_pair(card: &Card) -> (pair: ColorPair)
    ensures
        pair == spec_card_color_pair(*card),
{
    match card.color() {
        Color::Black => ColorPair::CardBlack,
        Color::Red => ColorPair::CardRed,
    }
}

/// A text printed from the cell in row `y` and column `x`, in a color pair.
#[derive(Clone, Debug)]
pub struct Print {
    pub y: i32,
    pub x: i32,
    pub text: String,
    pub color: ColorPair,
}

/// A print as plain values: row, column, text and color pair.
pub type PrintView = (int, int, Seq<char>, ColorPair);

/// Prints as plain values.
pub open spec fn spec_prints(prints: Seq<Print>) -> Seq<PrintView> {
    prints.map_values(|p: Print| (p.y as int, p.x as int, p.text@, p.color))
}

/// The frame of a card with its top-left cell at column `x` and row `y`: four lines, ten cells
/// wide, in the default pair.
pub open spec fn spec_frame_prints(x: int, y: int) -> Seq<PrintView> {
    seq![
        (y, x, "╭────────╮"@, ColorPair::Default),
        (y + 1, x, "│        │"@, ColorPair::Default),
        (y + 2, x, "│        │"@, ColorPair::Default),
        (y + 3, x, "╰────────╯"@, ColorPair::Default),
    ]
}

/// A card with its top-left cell at column `x` and row `y`: its frame, then, face up, the rank
/// and suit on the first inner line and the suit and rank on the second, right-aligned, in the
/// card's pair; face down, a pattern on both lines in the pair of card backs.
pub open spec fn spec_card_prints(x: int, y: int, card: Card) -> Seq<PrintView> {
    spec_frame_prints(x, y) + if card.face_up {
        let rank = card.rank.spec_label();
        let suit = card.suit.spec_symbol();
        let offset = 2 - rank.len();
        let pair = spec_card_color_pair(card);
        seq![
            (y + 1, x + 2, rank, pair),
            (y + 1, x + 7, suit, pair),
            (y + 2, x + 2, suit, pair),
            (y + 2, x + 6 + offset, rank, pair),
        ]
    } else {
        seq![
            (y + 1, x + 2, "░░░░░░"@, ColorPair::CardBack),
            (y + 2, x + 2, "░░░░░░"@, ColorPair::CardBack),
        ]
    }
}

/// The cards `cards` from column `x` and row `y`, each `dx` columns and `dy` rows after the
/// one before.
pub open spec fn spec_fanned_prints(x: int, y: int, cards: Seq<Card>, dx: int, dy: int) -> Seq<
    PrintView,
>
    decreases cards.len(),
{
    if cards.len() == 0 {
        Seq::empty()
    } else {
        let k = cards.len() - 1;
        spec_fanned_prints(x, y, cards.drop_last(), dx, dy) + spec_card_prints(
            x + dx * k,
            y + dy * k,
            cards.last(),
        )
    }
}

/// A stack spread to the right from column `x` and row `y`: with fanned cards, the frame of the
/// pile, if any, one column further left, and the fanned cards four columns apart; otherwise
/// the top card of the pile, with the frame of the cards under it one column further left.
pub open spec fn spec_horizontal_prints(x: int, y: int, pile: Seq<Card>, fanned: Seq<Card>) -> Seq<
    PrintView,
> {
    if fanned.len() > 0 {
        if pile.len() > 0 {
            spec_frame_prints(x, y) + spec_fanned_prints(x + 1, y, fanned, 4, 0)
        } else {
            spec_fanned_prints(x, y, fanned, 4, 0)
        }
    } else if pile.len() > 1 {
        spec_frame_prints(x, y) + spec_card_prints(x + 1, y, pile.last())
    } else if pile.len() == 1 {
        spec_card_prints(x, y, pile.last())
    } else {
        Seq::empty()
    }
}

/// A stack spread downwards from column `x` and row `y`: the fanned cards two rows apart, or,
/// without any, the top card of the pile.
pub open spec fn spec_vertical_prints(x: int, y: int, pile: Seq<Card>, fanned: Seq<Card>) -> Seq<
    PrintView,
> {
    if fanned.len() > 0 {
        spec_fanned_prints(x, y, fanned, 0, 2)
    } else if pile.len() > 0 {
        spec_card_prints(x, y, pile.last())
    } else {
        Seq::empty()
    }
}

/// A screen being drawn: the prints made since it was last refreshed.
#[derive(Debug)]
pub struct KlondikeDisplay {
    pub prints: Vec<Print>,
}

impl KlondikeDisplay {
    /// The prints made since the last refresh, as plain values.
    pub open spec fn spec_pending(&self) -> Seq<PrintView> {
        spec_prints(self.prints@)
    }

    /// A screen with nothing drawn yet.
    pub fn init() -> (display: KlondikeDisplay)
        ensures
            display.spec_pending().len() == 0,
    {
        KlondikeDisplay { prints: Vec::new() }
    }

    /// Hands over the prints made since the last refresh, for the screen to show them, and
    /// starts afresh.
    pub fn refresh(&mut self) -> (prints: Vec<Print>)
        ensures
            spec_prints(prints@) == old(self).spec_pending(),
            final(self).spec_pending().len() == 0,
    {
        let mut prints: Vec<Print> = Vec::new();
        std::mem::swap(&mut prints, &mut self.prints);
        prints
    }

    /// Prints `text` at row `y` and column `x` in `color`.
    fn print(&mut self, y: i32, x: i32, text: String, color: ColorPair)
        ensures
            final(self).spec_pending() == old(self).spec_pending().push(
                (y as int, x as int, text@, color),
            ),
    {
        let ghost before = self.prints@;
        self.prints.push(Print { y, x, text, color });
        assert(spec_prints(self.prints@) =~= spec_prints(before).push(
            (y as int, x as int, text@, color),
        ));
    }

    /// Draws the frame of a card at `coords` (see `spec_frame_prints`).
    pub fn draw_card_frame(&mut self, coords: Coords)
        requires
            coords.y + 3 <= i32::MAX,
        ensures
            final(self).spec_pending() == old(self).spec_pending() + spec_frame_prints(
                coords.x as int,
                coords.y as int,
            ),
    {
        let x = coords.x;
        let y = coords.y;
        self.print(y, x, String::from_str("╭────────╮"), ColorPair::Default);
        self.print(y + 1, x, String::from_str("│        │"), ColorPair::Default);
        self.print(y + 2, x, String::from_str("│        │"), ColorPair::Default);
        self.print(y + 3, x, String::from_str("╰────────╯"), ColorPair::Default);
        assert(self.spec_pending() =~= old(self).spec_pending() + spec_frame_prints(
            x as int,
            y as int,
        ));
    }

    /// Draws a card at `coords` (see `spec_card_prints`).
    pub fn draw_card(&mut self, coords: Coords, card: &Card)
        requires
            coords.y + 3 <= i32::MAX,
            coords.x + 8 <= i32::MAX,
        ensures
            final(self).spec_pending() == old(self).spec_pending() + spec_card_prints(
                coords.x as int,
                coords.y as int,
                *card,
            ),
    {
        self.draw_card_frame(coords);
        let x = coords.x;
        let y = coords.y;
        if card.face_up {
            let rank_str = card.rank.label();
            let suit_str = card.suit.symbol();
            let rank_len = rank_str.unicode_len();
            proof {
                assert(card.rank.spec_label().len() <= 2) by {
                    if 2 <= card.rank.0 <= 10 {
                        reveal_with_fuel(crate::utils::spec_pow10, 3);
                        crate::utils::lemma_decimal_len(card.rank.0 as nat, 2);
                    }
                }
            }
            let offset: i32 = 2 - rank_len as i32;
            let color_pair = card_color_pair(card);
            self.print(y + 1, x + 2, rank_str.clone(), color_pair);
            self.print(y + 1, x + 7, suit_str.clone(), color_pair);
            self.print(y + 2, x + 2, suit_str, color_pair);
            self.print(y + 2, x + 6 + offset, rank_str, color_pair);
        } else {
            self.print(y + 1, x + 2, String::from_str("░░░░░░"), ColorPair::CardBack);
            self.print(y + 2, x + 2, String::from_str("░░░░░░"), ColorPair::CardBack);
        }
        assert(self.spec_pending() =~= old(self).spec_pending() + spec_card_prints(
            x as int,
            y as int,
            *card,
        ));
    }

    /// Draws `cards` from `coords`, each `dx` columns and `dy` rows after the one before (see
    /// `spec_fanned_prints`).
    fn draw_fanned(&mut self, coords: Coords, cards: &[Card], dx: i32, dy: i32)
        requires
            0 <= dx <= 4,
            0 <= dy <= 2,
            coords.x + dx * cards@.len() + 8 <= i32::MAX,
            coords.y + dy * cards@.len() + 3 <= i32::MAX,
        ensures
            final(self).spec_pending() == old(self).spec_pending() + spec_fanned_prints(
                coords.x as int,
                coords.y as int,
                cards@,
                dx as int,
                dy as int,
            ),
    {
        let mut i: usize = 0;
        let mut x = coords.x;
        let mut y = coords.y;
        proof {
            assert(cards@.take(0).len() == 0);
            assert(old(self).spec_pending() + spec_fanned_prints(
                coords.x as int,
                coords.y as int,
                cards@.take(0),
                dx as int,
                dy as int,
            ) =~= old(self).spec_pending());
        }
        while i < cards.len()
            invariant
                0 <= dx <= 4,
                0 <= dy <= 2,
                coords.x + dx * cards@.len() + 8 <= i32::MAX,
                coords.y + dy * cards@.len() + 3 <= i32::MAX,
                i <= cards@.len(),
                x == coords.x + dx * i,
                y == coords.y + dy * i,
                self.spec_pending() == old(self).spec_pending() + spec_fanned_prints(
                    coords.x as int,
                    coords.y as int,
                    cards@.take(i as int),
                    dx as int,
                    dy as int,
                ),
            decreases cards@.len() - i,
        {
            proof {
                assert(dx * i <= dx * cards@.len()) by (nonlinear_arith)
                    requires
                        0 <= dx,
                        i < cards@.len(),
                ;
                assert(dy * i <= dy * cards@.len()) by (nonlinear_arith)
                    requires
                        0 <= dy,
                        i < cards@.len(),
                ;
                assert(dx * (i + 1) <= dx * cards@.len()) by (nonlinear_arith)
                    requires
                        0 <= dx,
                        i < cards@.len(),
                ;
                assert(dy * (i + 1) <= dy * cards@.len()) by (nonlinear_arith)
                    requires
                        0 <= dy,
                        i < cards@.len(),
                ;
            }
            self.draw_card(Coords { x, y }, &cards[i]);
            proof {
                let taken = cards@.take(i + 1);
                assert(taken.drop_last() =~= cards@.take(i as int));
                assert(taken.last() == cards@[i as int]);
                assert(spec_fanned_prints(
                    coords.x as int,
                    coords.y as int,
                    taken,
                    dx as int,
                    dy as int,
                ) == spec_fanned_prints(
                    coords.x as int,
                    coords.y as int,
                    cards@.take(i as int),
                    dx as int,
                    dy as int,
                ) + spec_card_prints(x as int, y as int, cards@[i as int]));
                assert(self.spec_pending() =~= old(self).spec_pending() + spec_fanned_prints(
                    coords.x as int,
                    coords.y as int,
                    taken,
                    dx as int,
                    dy as int,
                ));
                assert(dx * (i + 1) == dx * i + dx) by (nonlinear_arith);
                assert(dy * (i + 1) == dy * i + dy) by (nonlinear_arith);
            }
            i = i + 1;
            x = x + dx;
            y = y + dy;
        }
        assert(cards@.take(i as int) =~= cards@);
    }

    /// Draws a stack spread to the right from `coords` (see `spec_horizontal_prints`).
    pub fn draw_horizontal_card_stack(&mut self, coords: Coords, stack: &CardStack)
        requires
            coords.x + 4 * stack.fanned@.len() + 9 <= i32::MAX,
            coords.y + 3 <= i32::MAX,
        ensures
            final(self).spec_pending() == old(self).spec_pending() + spec_horizontal_prints(
                coords.x as int,
                coords.y as int,
                stack.pile@,
                stack.fanned@,
            ),
    {
        let y = coords.y;
        if stack.fanned.len() > 0 {
            if stack.pile.len() > 0 {
                self.draw_card_frame(coords);
                        self.draw_fanned(Coords { x: coords.x + 1, y }, stack.fanned, 4, 0);
                assert(self.spec_pending() =~= old(self).spec_pending() + spec_horizontal_prints(
                    coords.x as int,
                    coords.y as int,
                    stack.pile@,
                    stack.fanned@,
                ));
            } else {
                self.draw_fanned(coords, stack.fanned, 4, 0);
            }
        } else if stack.pile.len() > 0 {
            let top_card = &stack.pile[stack.pile.len() - 1];
            if stack.pile.len() > 1 {
                self.draw_card_frame(coords);
                self.draw_card(Coords { x: coords.x + 1, y }, top_card);
                assert(self.spec_pending() =~= old(self).spec_pending() + spec_horizontal_prints(
                    coords.x as int,
                    coords.y as int,
                    stack.pile@,
                    stack.fanned@,
                ));
            } else {
                self.draw_card(coords, top_card);
            }
        } else {
            assert(self.spec_pending() =~= old(self).spec_pending() + Seq::<PrintView>::empty());
        }
    }

    /// Draws a stack spread downwards from `coords` (see `spec_vertical_prints`).
    pub fn draw_vertical_card_stack(&mut self, coords: Coords, stack: &CardStack)
        requires
            coords.x + 8 <= i32::MAX,
            coords.y + 2 * stack.fanned@.len() + 3 <= i32::MAX,
        ensures
            final(self).spec_pending() == old(self).spec_pending() + spec_vertical_prints(
                coords.x as int,
                coords.y as int,
                stack.pile@,
                stack.fanned@,
            ),
    {
        if stack.fanned.len() > 0 {
            self.draw_fanned(coords, stack.fanned, 0, 2);
        } else if stack.pile.len() > 0 {
            let top_card = &stack.pile[stack.pile.len() - 1];
            self.draw_card(coords, top_card);
        } else {
            assert(self.spec_pending() =~= old(self).spec_pending() + Seq::<PrintView>::empty());
        }
    }
}

} // verus!
