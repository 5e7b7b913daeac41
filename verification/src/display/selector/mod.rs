//! The marker drawn along the selected cards of a stack.

use vstd::prelude::*;

use super::escape::{fg_code, spec_fg_code, spec_move_code, TermColor};
use super::geometry::{goto, spec_goto, Point, Rect, Size};
use crate::model::stack::Orientation;

pub mod horizontal;
pub mod vertical;

verus! {

/// A selector of `len` pieces starting at `coords`, along a row or a column.
#[derive(Debug)]
pub struct SelectorWidget {
    pub coords: Point,
    pub len: u16,
    pub orientation: Orientation,
}

/// The first piece of a selector.
pub open spec fn spec_start(orientation: Orientation) -> Seq<char> {
    match orientation {
        Orientation::Horizontal => "╘"@,
        Orientation::Vertical => "╓╴"@,
    }
}

/// A middle piece of a selector.
pub open spec fn spec_middle(orientation: Orientation) -> Seq<char> {
    match orientation {
        Orientation::Horizontal => "═"@,
        Orientation::Vertical => "║ "@,
    }
}

/// The last piece of a selector.
pub open spec fn spec_end(orientation: Orientation) -> Seq<char> {
    match orientation {
        Orientation::Horizontal => "╛"@,
        Orientation::Vertical => "╙╴"@,
    }
}

/// What moves from one piece to the next.
pub open spec fn spec_next(orientation: Orientation) -> Seq<char> {
    match orientation {
        Orientation::Horizontal => Seq::empty(),
        Orientation::Vertical => spec_move_code(2, 'D') + spec_move_code(1, 'B'),
    }
}

/// The first `k` pieces of a selector of `len` pieces, each followed by the move to the next:
/// the start, middle pieces, and the end.
pub open spec fn spec_pieces(orientation: Orientation, len: u16, k: int) -> Seq<char>
    decreases k,
{
    if k <= 0 {
        Seq::empty()
    } else {
        let i = k - 1;
        let piece = if i == 0 {
            spec_start(orientation)
        } else if i == len - 1 {
            spec_end(orientation)
        } else {
            spec_middle(orientation)
        };
        spec_pieces(orientation, len, i) + piece + spec_next(orientation)
    }
}

impl SelectorWidget {
    /// The selector as drawn: from its first cell, in light white, all its pieces.
    pub open spec fn spec_text(&self) -> Seq<char> {
        spec_goto(self.coords) + spec_fg_code(TermColor::LightWhite) + spec_pieces(
            self.orientation,
            self.len,
            self.len as int,
        )
    }

    /// The cells the selector covers.
    pub fn bounds(&self) -> (r: Rect)
        ensures
            r == match self.orientation {
                Orientation::Horizontal => Rect {
                    origin: self.coords,
                    size: Size { width: self.len, height: 1 },
                },
                Orientation::Vertical => Rect {
                    origin: self.coords,
                    size: Size { width: 2, height: self.len },
                },
            },
    {
        match self.orientation {
            Orientation::Horizontal => horizontal::bounds(self.coords, self.len),
            Orientation::Vertical => vertical::bounds(self.coords, self.len),
        }
    }

    /// The first piece.
    fn write_start(&self) -> (s: &'static str)
        ensures
            s@ == spec_start(self.orientation),
    {
        match self.orientation {
            Orientation::Horizontal => horizontal::write_start(),
            Orientation::Vertical => vertical::write_start(),
        }
    }

    /// A middle piece.
    fn write_middle(&self) -> (s: &'static str)
        ensures
            s@ == spec_middle(self.orientation),
    {
        match self.orientation {
            Orientation::Horizontal => horizontal::write_middle(),
            Orientation::Vertical => vertical::write_middle(),
        }
    }

    /// The last piece.
    fn write_end(&self) -> (s: &'static str)
        ensures
            s@ == spec_end(self.orientation),
    {
        match self.orientation {
            Orientation::Horizontal => horizontal::write_end(),
            Orientation::Vertical => vertical::write_end(),
        }
    }

    /// The move to the next piece.
    fn write_next(&self) -> (s: String)
        ensures
            s@ == spec_next(self.orientation),
    {
        match self.orientation {
            Orientation::Horizontal => horizontal::write_next(),
            Orientation::Vertical => vertical::write_next(),
        }
    }

    /// The selector as drawn (see `spec_text`).
    pub fn fmt(&self) -> (s: String)
        requires
            self.coords.x < u16::MAX,
            self.coords.y < u16::MAX,
        ensures
            s@ == self.spec_text(),
    {
        let mut s = goto(self.coords);
        let color = fg_code(TermColor::LightWhite);
        s.append(color.as_str());
        let ghost prefix = s@;
        let next = self.write_next();
        let mut i: u16 = 0;
        while i < self.len
            invariant
                i <= self.len,
                next@ == spec_next(self.orientation),
                s@ == prefix + spec_pieces(self.orientation, self.len, i as int),
            decreases self.len - i,
        {
            let piece = if i == 0 {
                self.write_start()
            } else if i == self.len - 1 {
                self.write_end()
            } else {
                self.write_middle()
            };
            s.append(piece);
            s.append(next.as_str());
            i = i + 1;
        }
        s
    }
}

} // verus!
