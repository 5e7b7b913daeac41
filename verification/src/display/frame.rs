//! Frames around parts of the display, with optional titles in their top and bottom lines.

use vstd::prelude::*;

use super::escape::{
    down_code, fg_code, left_code, right_code, spec_fg_code, spec_move_code, TermColor,
};
use super::format_str::FormattedString;
use super::geometry::{goto, spec_goto, Rect};

verus! {

/// The pieces a frame is drawn with.
#[derive(Debug)]
pub struct FrameStyle {
    pub top_left: &'static str,
    pub top: &'static str,
    pub top_right: &'static str,
    pub left: &'static str,
    pub right: &'static str,
    pub bottom_left: &'static str,
    pub bottom: &'static str,
    pub bottom_right: &'static str,
    pub title_left: &'static str,
    pub title_right: &'static str,
}

/// A frame of single lines.
pub open spec fn spec_single_style() -> FrameStyle {
    FrameStyle {
        top_left: "┌─",
        top: "─",
        top_right: "─┐",
        left: "│",
        right: "│",
        bottom_left: "└─",
        bottom: "─",
        bottom_right: "─┘",
        title_left: "┤ ",
        title_right: " ├",
    }
}

/// A frame of single lines.
pub fn single() -> (style: FrameStyle)
    ensures
        style == spec_single_style(),
{
    FrameStyle {
        top_left: "┌─",
        top: "─",
        top_right: "─┐",
        left: "│",
        right: "│",
        bottom_left: "└─",
        bottom: "─",
        bottom_right: "─┘",
        title_left: "┤ ",
        title_right: " ├",
    }
}

/// A frame of double lines.
pub open spec fn spec_double_style() -> FrameStyle {
    FrameStyle {
        top_left: "╔═",
        top: "═",
        top_right: "═╗",
        left: "║",
        right: "║",
        bottom_left: "╚═",
        bottom: "═",
        bottom_right: "═╝",
        title_left: "╡ ",
        title_right: " ╞",
    }
}

/// A frame of double lines.
pub fn double() -> (style: FrameStyle)
    ensures
        style == spec_double_style(),
{
    FrameStyle {
        top_left: "╔═",
        top: "═",
        top_right: "═╗",
        left: "║",
        right: "║",
        bottom_left: "╚═",
        bottom: "═",
        bottom_right: "═╝",
        title_left: "╡ ",
        title_right: " ╞",
    }
}

/// Where a title stands in its line.
#[derive(Clone, Copy, Debug, Eq, PartialEq, Structural)]
pub enum Direction {
    Left,
    Center,
    Right,
}

/// A title and where it stands.
#[derive(Debug)]
pub struct Title(pub FormattedString, pub Direction);

impl Title {
    /// A title at the left.
    pub fn left(text: FormattedString) -> (title: Title)
        ensures
            title.0 == text,
            title.1 == Direction::Left,
    {
        Title(text, Direction::Left)
    }

    /// A title in the middle.
    pub fn center(text: FormattedString) -> (title: Title)
        ensures
            title.0 == text,
            title.1 == Direction::Center,
    {
        Title(text, Direction::Center)
    }

    /// A title at the right.
    pub fn right(text: FormattedString) -> (title: Title)
        ensures
            title.0 == text,
            title.1 == Direction::Right,
    {
        Title(text, Direction::Right)
    }
}

/// `text` repeated `n` times.
pub open spec fn spec_repeat(text: Seq<char>, n: nat) -> Seq<char>
    decreases n,
{
    if n == 0 {
        Seq::empty()
    } else {
        spec_repeat(text, (n - 1) as nat) + text
    }
}

/// `text` repeated `n` times.
pub fn repeat(text: &str, n: u16) -> (s: String)
    ensures
        s@ == spec_repeat(text@, n as nat),
{
    let mut s = String::new();
    let mut k: u16 = 0;
    while k < n
        invariant
            k <= n,
            s@ == spec_repeat(text@, k as nat),
        decreases n - k,
    {
        s.append(text);
        k = k + 1;
    }
    s
}

/// `a - b`, or 0 when `b` is larger.
pub open spec fn spec_saturating_sub(a: int, b: int) -> int {
    if a >= b {
        a - b
    } else {
        0
    }
}

/// The number of cells left in a line of `width` cells once `a` and `b` are drawn at its ends.
pub open spec fn spec_blank_width(width: u16, a: Seq<char>, b: Seq<char>) -> int {
    spec_saturating_sub(spec_saturating_sub(width as int, a.len() as int), b.len() as int)
}

/// A title as its text, the number of cells its content takes, and where it stands.
pub open spec fn spec_title_parts(title: Option<Title>) -> Option<(Seq<char>, int, Direction)> {
    match title {
        Some(t) => Some((t.0.string@, t.0.len as int, t.1)),
        None => None,
    }
}

/// The numbers of filler cells before and after a title whose pieces take `content_len` cells
/// in a line of `width` cells: what is left of the line goes after the title at the left,
/// before it at the right, and is split around it in the middle, the smaller half first.
pub open spec fn spec_title_padding(content_len: int, direction: Direction, width: u16) -> (
    int,
    int,
) {
    let available = spec_saturating_sub(width as int, content_len);
    match direction {
        Direction::Left => (0, available),
        Direction::Center => (available / 2, available - available / 2),
        Direction::Right => (available, 0),
    }
}

/// A titled line fills its width exactly when the title fits, and takes the title's own width
/// otherwise; a centred title has at most one more filler cell after it than before it.
pub proof fn lemma_title_padding(content_len: int, direction: Direction, width: u16)
    requires
        content_len >= 0,
    ensures
        ({
            let (left_len, right_len) = spec_title_padding(content_len, direction, width);
            &&& left_len >= 0
            &&& right_len >= 0
            &&& left_len + content_len + right_len == if content_len <= width {
                width as int
            } else {
                content_len
            }
            &&& direction == Direction::Center ==> left_len <= right_len <= left_len + 1
            &&& direction == Direction::Left ==> left_len == 0
            &&& direction == Direction::Right ==> right_len == 0
        }),
{
}

/// A line of `width` cells holding the title `text`, whose content takes `text_len` cells,
/// between `title_left` and `title_right` and followed by a reset to white; the rest is filled
/// with `filler`: after the title at the left, before it at the right, and split around it in
/// the middle, the smaller half on the left.
pub open spec fn spec_format_with_title(
    text: Seq<char>,
    text_len: int,
    direction: Direction,
    width: u16,
    filler: Seq<char>,
    title_left: Seq<char>,
    title_right: Seq<char>,
) -> Seq<char> {
    let content_len = title_left.len() + text_len + title_right.len();
    let (left_len, right_len) = spec_title_padding(content_len, direction, width);
    spec_repeat(filler, left_len as nat) + title_left + text + spec_fg_code(TermColor::White)
        + title_right + spec_repeat(filler, right_len as nat)
}

/// A line of `width` cells holding the title (see `spec_format_with_title`).
fn format_with_title(
    title: &Title,
    width: u16,
    filler: &str,
    title_left: &str,
    title_right: &str,
) -> (s: String)
    requires
        title_left@.len() + title.0.len + title_right@.len() <= usize::MAX,
    ensures
        s@ == spec_format_with_title(
            title.0.string@,
            title.0.len as int,
            title.1,
            width,
            filler@,
            title_left@,
            title_right@,
        ),
{
    let white = fg_code(TermColor::White);
    let formatted_title = FormattedString::of_content(title_left).push_formatted_content(
        &title.0,
    ).push_formatting(white.as_str()).push_content(title_right);
    let title_len = formatted_title.len();
    let available: u16 = if (width as usize) >= title_len {
        (width as usize - title_len) as u16
    } else {
        0
    };
    let (left_len, right_len) = match title.1 {
        Direction::Left => (0, available),
        Direction::Center => {
            let left_len = available / 2;
            (left_len, available - left_len)
        },
        Direction::Right => (available, 0),
    };
    let mut s = repeat(filler, left_len);
    s.append(formatted_title.as_str());
    let right = repeat(filler, right_len);
    s.append(right.as_str());
    s
}

/// A frame drawn over `bounds`.
#[derive(Debug)]
pub struct FrameWidget<'a> {
    pub bounds: Rect,
    pub top_title: Option<Title>,
    pub bottom_title: Option<Title>,
    pub frame_style: &'a FrameStyle,
}

/// Moves from the end of a line of `width` cells to the start of the next one.
pub open spec fn spec_step(width: u16) -> Seq<char> {
    spec_move_code(1, 'B') + spec_move_code(width, 'D')
}

/// The top or bottom line between its corners: the title, or the filler alone.
pub open spec fn spec_edge(
    style: FrameStyle,
    title: Option<(Seq<char>, int, Direction)>,
    filler: Seq<char>,
    width: int,
) -> Seq<char> {
    match title {
        Some((text, text_len, direction)) => spec_format_with_title(
            text,
            text_len,
            direction,
            width as u16,
            filler,
            style.title_left@,
            style.title_right@,
        ),
        None => spec_repeat(filler, width as nat),
    }
}

/// A frame over `bounds` as drawn: its top line from the top-left cell, then each middle line
/// as its left and right pieces with the inside skipped, then its bottom line, all in white.
pub open spec fn spec_frame_text(
    bounds: Rect,
    style: FrameStyle,
    top: Option<(Seq<char>, int, Direction)>,
    bottom: Option<(Seq<char>, int, Direction)>,
) -> Seq<char> {
    let width = bounds.size.width;
    let height = bounds.size.height;
    let white = spec_fg_code(TermColor::White);
    let top_width = spec_blank_width(width, style.top_left@, style.top_right@);
    let middle_width = spec_blank_width(width, style.left@, style.right@);
    let bottom_width = spec_blank_width(width, style.bottom_left@, style.bottom_right@);
    let middle = spec_step(width) + white + style.left@ + spec_move_code(middle_width as u16, 'C')
        + style.right@;
    spec_goto(bounds.origin) + white + style.top_left@ + spec_edge(style, top, style.top@, top_width)
        + white + style.top_right@ + spec_repeat(
        middle,
        spec_saturating_sub(height as int, 2) as nat,
    ) + spec_step(width) + white + style.bottom_left@ + spec_edge(
        style,
        bottom,
        style.bottom@,
        bottom_width,
    ) + white + style.bottom_right@
}

impl<'a> FrameWidget<'a> {
    /// The frame fits the terminal's coordinates, and its pieces and titles have countable
    /// lengths.
    pub open spec fn spec_drawable(&self) -> bool {
        let style = self.frame_style;
        &&& self.bounds.origin.x < u16::MAX
        &&& self.bounds.origin.y < u16::MAX
        &&& self.bounds.size.height >= 1
        &&& self.top_title matches Some(title) ==> style.title_left@.len() + title.0.len
            + style.title_right@.len() <= usize::MAX
        &&& self.bottom_title matches Some(title) ==> style.title_left@.len() + title.0.len
            + style.title_right@.len() <= usize::MAX
    }

    /// The frame as drawn (see `spec_frame_text`).
    pub open spec fn spec_text(&self) -> Seq<char> {
        spec_frame_text(
            self.bounds,
            *self.frame_style,
            spec_title_parts(self.top_title),
            spec_title_parts(self.bottom_title),
        )
    }

    /// The area the frame covers.
    pub fn bounds(&self) -> (r: Rect)
        ensures
            r == self.bounds,
    {
        self.bounds
    }

    /// The top or bottom line between its corners.
    fn edge(&self, title: &Option<Title>, filler: &str, width: u16) -> (s: String)
        requires
            title matches Some(t) ==> self.frame_style.title_left@.len() + t.0.len
                + self.frame_style.title_right@.len() <= usize::MAX,
        ensures
            s@ == spec_edge(*self.frame_style, spec_title_parts(*title), filler@, width as int),
    {
        match title {
            Some(t) => format_with_title(
                t,
                width,
                filler,
                self.frame_style.title_left,
                self.frame_style.title_right,
            ),
            None => repeat(filler, width),
        }
    }

    /// The frame as drawn (see `spec_text`).
    pub fn fmt(&self) -> (s: String)
        requires
            self.spec_drawable(),
        ensures
            s@ == self.spec_text(),
    {
        let style = self.frame_style;
        let width = self.bounds.size.width;
        let top_width = blank_width(width, style.top_left, style.top_right);
        let middle_width = blank_width(width, style.left, style.right);
        let bottom_width = blank_width(width, style.bottom_left, style.bottom_right);
        let top = self.edge(&self.top_title, style.top, top_width);
        let bottom = self.edge(&self.bottom_title, style.bottom, bottom_width);
        let white = fg_code(TermColor::White);
        let mut step = down_code(1);
        let left = left_code(width);
        step.append(left.as_str());

        let mut s = goto(self.bounds.origin);
        s.append(white.as_str());
        s.append(style.top_left);
        s.append(top.as_str());
        s.append(white.as_str());
        s.append(style.top_right);

        let mut middle = step.clone();
        middle.append(white.as_str());
        middle.append(style.left);
        let skip = right_code(middle_width);
        middle.append(skip.as_str());
        middle.append(style.right);
        let lines: u16 = if self.bounds.size.height >= 2 {
            self.bounds.size.height - 2
        } else {
            0
        };
        let mut k: u16 = 0;
        let ghost prefix = s@;
        while k < lines
            invariant
                k <= lines,
                s@ == prefix + spec_repeat(middle@, k as nat),
            decreases lines - k,
        {
            s.append(middle.as_str());
            k = k + 1;
        }

        s.append(step.as_str());
        s.append(white.as_str());
        s.append(style.bottom_left);
        s.append(bottom.as_str());
        s.append(white.as_str());
        s.append(style.bottom_right);
        s
    }
}

/// The number of cells left in a line of `width` cells once `a` and `b` are drawn at its ends.
fn blank_width(width: u16, a: &str, b: &str) -> (n: u16)
    ensures
        n == spec_blank_width(width, a@, b@),
{
    let a_len = a.unicode_len();
    let b_len = b.unicode_len();
    let after_a: usize = if (width as usize) >= a_len {
        width as usize - a_len
    } else {
        0
    };
    let after_b: usize = if after_a >= b_len {
        after_a - b_len
    } else {
        0
    };
    after_b as u16
}

} // verus!
