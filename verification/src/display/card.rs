//! Drawing a single card, in full or as a slice under the cards spread over it.

use vstd::prelude::*;

use super::blank::BlankWidget;
use super::escape::{
    down_code, fg_code, left_code, right_code, spec_fg_code, spec_move_code, TermColor,
};
use super::format_str::FormattedString;
use super::frame::{spec_frame_text, Direction, FrameStyle, FrameWidget, Title};
use super::geometry::{goto, point2, size2, spec_goto, Point, Rect, SideOffsets, Size};
use crate::model::card::{Card, Color};
use crate::utils::{decimal, spec_decimal};

verus! {

/// The size of a card: 8 cells wide and 4 high.
pub fn card_size() -> (s: Size)
    ensures
        s == (Size { width: 8, height: 4 }),
{
    size2(8, 4)
}

/// The size of a card's slice: 8 cells wide and 2 high.
pub fn slice_size() -> (s: Size)
    ensures
        s == (Size { width: 8, height: 2 }),
{
    size2(8, 2)
}

/// The rounded frame of a card.
pub open spec fn spec_card_frame_style() -> FrameStyle {
    FrameStyle {
        top_left: "╭",
        top: "─",
        top_right: "╮",
        left: "│",
        right: "│",
        bottom_left: "╰",
        bottom: "─",
        bottom_right: "╯",
        title_left: "╴",
        title_right: "╶",
    }
}

/// The rounded frame of a card.
pub fn card_frame_style() -> (style: FrameStyle)
    ensures
        style == spec_card_frame_style(),
{
    FrameStyle {
        top_left: "╭",
        top: "─",
        top_right: "╮",
        left: "│",
        right: "│",
        bottom_left: "╰",
        bottom: "─",
        bottom_right: "╯",
        title_left: "╴",
        title_right: "╶",
    }
}

/// The terminal color of a card color: the default for black, red for red.
pub open spec fn spec_term_color(color: Color) -> TermColor {
    match color {
        Color::Black => TermColor::Reset,
        Color::Red => TermColor::Red,
    }
}

/// The terminal color of a card color.
pub fn term_color(color: Color) -> (c: TermColor)
    ensures
        c == spec_term_color(color),
{
    match color {
        Color::Black => TermColor::Reset,
        Color::Red => TermColor::Red,
    }
}

/// How a card is drawn.
#[derive(Copy, Clone, Debug, PartialEq, Eq, Structural)]
pub enum CardWidgetMode {
    /// The whole card, its rank and suit shown.
    FullFaceUp,
    /// The whole card, its back shown.
    FullFaceDown,
    /// The top of the card, its rank and suit in the frame.
    SliceFaceUp,
    /// The top of a card standing for the given number of face-down cards.
    SliceFaceDown(usize),
}

/// A card drawn with its top-left cell at `origin`.
#[derive(Debug)]
pub struct CardWidget<'a> {
    pub card: &'a Card,
    pub origin: Point,
    pub mode: CardWidgetMode,
}

/// Moves from the end of a card's interior line to the start of the next one.
pub open spec fn spec_next_line() -> Seq<char> {
    spec_move_code(4, 'D') + spec_move_code(1, 'B')
}

impl<'a> CardWidget<'a> {
    /// The card fits the terminal's coordinates.
    pub open spec fn spec_drawable(&self) -> bool {
        self.origin.x + 8 < u16::MAX && self.origin.y + 4 < u16::MAX
    }

    /// The area of a full card at the origin.
    pub open spec fn spec_bounds(&self) -> Rect {
        Rect { origin: self.origin, size: Size { width: 8, height: 4 } }
    }

    /// The title of a slice and the cells its content takes: rank and suit in the card's color
    /// around a white spacer, or the number of cards it stands for, in gray.
    pub open spec fn spec_slice_title(&self) -> (Seq<char>, int) {
        let color = spec_fg_code(spec_term_color(self.card.spec_color()));
        let rank = self.card.rank.spec_label();
        let suit = self.card.suit.spec_symbol();
        match self.mode {
            CardWidgetMode::SliceFaceDown(count) => (
                spec_fg_code(TermColor::LightBlack) + spec_decimal(count as nat) + seq!['×'],
                spec_decimal(count as nat).len() + 1int,
            ),
            _ => {
                let spacer = if rank.len() == 2 {
                    seq![' ']
                } else {
                    seq!['╶', '╴']
                };
                (
                    color + rank + spec_fg_code(TermColor::White) + spacer + color + suit,
                    (rank.len() + spacer.len() + suit.len()) as int,
                )
            },
        }
    }

    /// The card's frame as drawn, its interior blanked first, with `title` at the right of its
    /// top line.
    pub open spec fn spec_frame_text(&self, title: Option<(Seq<char>, int)>) -> Seq<char> {
        let blank = BlankWidget {
            bounds: Rect {
                origin: Point { x: (self.origin.x + 1) as u16, y: (self.origin.y + 1) as u16 },
                size: Size { width: 6, height: 2 },
            },
        };
        let top = match title {
            Some((text, len)) => Some((text, len, Direction::Right)),
            None => None,
        };
        blank.spec_text() + spec_frame_text(self.spec_bounds(), spec_card_frame_style(), top, None)
    }

    /// The card as drawn: its frame, then rank and suit in the card's color on the first line of
    /// the interior and suit and rank on the second (face up), or a pattern in light blue (face
    /// down); a slice is its frame with the slice title.
    pub open spec fn spec_text(&self) -> Seq<char> {
        let interior = Point { x: (self.origin.x + 2) as u16, y: (self.origin.y + 1) as u16 };
        let rank = self.card.rank.spec_label();
        let suit = self.card.suit.spec_symbol();
        let color = spec_fg_code(spec_term_color(self.card.spec_color()));
        let offset = spec_move_code((3 - rank.len()) as u16, 'C');
        match self.mode {
            CardWidgetMode::FullFaceUp => self.spec_frame_text(None) + spec_goto(interior) + color
                + rank + offset + suit + spec_next_line() + suit + offset + rank
                + spec_next_line(),
            CardWidgetMode::FullFaceDown => self.spec_frame_text(None) + spec_goto(interior)
                + spec_fg_code(TermColor::LightBlue) + seq!['░', '░', '░', '░'] + spec_next_line()
                + seq!['░', '░', '░', '░'] + spec_next_line(),
            _ => self.spec_frame_text(Some(self.spec_slice_title())),
        }
    }

    /// The area of a full card at the origin.
    pub fn bounds(&self) -> (r: Rect)
        ensures
            r == self.spec_bounds(),
    {
        Rect::new(self.origin, card_size())
    }

    /// The card's frame with its interior blanked, and `title` at the right of its top line.
    fn fmt_frame(&self, title: Option<FormattedString>) -> (s: String)
        requires
            self.spec_drawable(),
            title matches Some(t) ==> t.len + 2 <= usize::MAX,
        ensures
            s@ == self.spec_frame_text(
                match title {
                    Some(t) => Some((t.string@, t.len as int)),
                    None => None,
                },
            ),
    {
        let bounds = self.bounds();
        let blank = BlankWidget { bounds: bounds.inner_rect(SideOffsets::new_all_same(1)) };
        let mut s = blank.fmt();
        let style = card_frame_style();
        let top_title = match title {
            Some(t) => Some(Title::right(t)),
            None => None,
        };
        proof {
            reveal_strlit("╴");
            reveal_strlit("╶");
        }
        let frame = FrameWidget { bounds, top_title, bottom_title: None, frame_style: &style };
        let drawn = frame.fmt();
        s.append(drawn.as_str());
        s
    }

    /// A face-up card as drawn: its frame, then rank and suit on the first line of the interior
    /// and suit and rank on the second, in the card's color.
    pub open spec fn spec_face_up_text(&self) -> Seq<char> {
        let interior = Point { x: (self.origin.x + 2) as u16, y: (self.origin.y + 1) as u16 };
        let rank = self.card.rank.spec_label();
        let suit = self.card.suit.spec_symbol();
        let color = spec_fg_code(spec_term_color(self.card.spec_color()));
        let offset = spec_move_code((3 - rank.len()) as u16, 'C');
        self.spec_frame_text(None) + spec_goto(interior) + color + rank + offset + suit
            + spec_next_line() + suit + offset + rank + spec_next_line()
    }

    /// A face-up card as drawn.
    fn fmt_face_up(&self) -> (s: String)
        requires
            self.spec_drawable(),
        ensures
            s@ == self.spec_face_up_text(),
    {
        let interior = point2(self.origin.x + 2, self.origin.y + 1);
        let rank = self.card.rank.label();
        let suit = self.card.suit.symbol();
        let color = fg_code(term_color(self.card.color()));
        let mut next = left_code(4);
        let down = down_code(1);
        next.append(down.as_str());
        let rank_len = rank.as_str().unicode_len();
        let offset = right_code(3 - rank_len as u16);
        let mut s = self.fmt_frame(None);
        let start = goto(interior);
        s.append(start.as_str());
        s.append(color.as_str());
        s.append(rank.as_str());
        s.append(offset.as_str());
        s.append(suit.as_str());
        s.append(next.as_str());
        s.append(suit.as_str());
        s.append(offset.as_str());
        s.append(rank.as_str());
        s.append(next.as_str());
        s
    }

    /// A face-down card as drawn: its frame, then a pattern in light blue on both lines of the
    /// interior.
    pub open spec fn spec_face_down_text(&self) -> Seq<char> {
        let interior = Point { x: (self.origin.x + 2) as u16, y: (self.origin.y + 1) as u16 };
        self.spec_frame_text(None) + spec_goto(interior) + spec_fg_code(TermColor::LightBlue)
            + seq!['░', '░', '░', '░'] + spec_next_line() + seq!['░', '░', '░', '░']
            + spec_next_line()
    }

    /// A face-down card as drawn.
    fn fmt_face_down(&self) -> (s: String)
        requires
            self.spec_drawable(),
        ensures
            s@ == self.spec_face_down_text(),
    {
        let interior = point2(self.origin.x + 2, self.origin.y + 1);
        let mut next = left_code(4);
        let down = down_code(1);
        next.append(down.as_str());
        proof {
            reveal_strlit("░░░░");
        }
        let mut s = self.fmt_frame(None);
        let start = goto(interior);
        let blue = fg_code(TermColor::LightBlue);
        s.append(start.as_str());
        s.append(blue.as_str());
        s.append("░░░░");
        s.append(next.as_str());
        s.append("░░░░");
        s.append(next.as_str());
        s
    }

    /// The title of a slice (see `spec_slice_title`).
    fn slice_title(&self) -> (title: FormattedString)
        ensures
            (title.string@, title.len as int) == self.spec_slice_title(),
            title.len <= 32,
    {
        let color = fg_code(term_color(self.card.color()));
        let rank = self.card.rank.label();
        let suit = self.card.suit.symbol();
        proof {
            reveal_strlit(" ");
            reveal_strlit("╶╴");
            reveal_strlit("×");
        }
        match self.mode {
            CardWidgetMode::SliceFaceDown(count) => {
                let gray = fg_code(TermColor::LightBlack);
                let mut formatted_count = decimal(count as u64);
                proof {
                    crate::utils::lemma_decimal_len_u64(count as u64);
                }
                formatted_count.append("×");
                FormattedString::new_with_formatting(gray.as_str()).push_content(
                    formatted_count.as_str(),
                )
            },
            _ => {
                let white = fg_code(TermColor::White);
                let rank_len = rank.as_str().unicode_len();
                let spacer = if rank_len == 2 {
                    " "
                } else {
                    "╶╴"
                };
                FormattedString::new_with_formatting(color.as_str()).push_content(
                    rank.as_str(),
                ).push_formatting(white.as_str()).push_content(spacer).push_formatting(
                    color.as_str(),
                ).push_content(suit.as_str())
            },
        }
    }

    /// The card as drawn (see `spec_text`).
    pub fn fmt(&self) -> (s: String)
        requires
            self.spec_drawable(),
        ensures
            s@ == self.spec_text(),
    {
        match self.mode {
            CardWidgetMode::FullFaceUp => self.fmt_face_up(),
            CardWidgetMode::FullFaceDown => self.fmt_face_down(),
            _ => {
                let title = self.slice_title();
                self.fmt_frame(Some(title))
            },
        }
    }
}

} // verus!
