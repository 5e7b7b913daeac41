//! Clearing part of the display.

use vstd::prelude::*;

use super::escape::{down_code, fg_code, left_code, spec_fg_code, TermColor};
use super::frame::{repeat, spec_repeat, spec_step};
use super::geometry::{goto, spec_goto, Rect};

verus! {

/// Blanks a rectangle of the display.
#[derive(Debug)]
pub struct BlankWidget {
    pub bounds: Rect,
}

impl BlankWidget {
    /// The area the widget covers.
    pub fn bounds(&self) -> (r: Rect)
        ensures
            r == self.bounds,
    {
        self.bounds
    }

    /// Each row as spaces in the default color, from the top-left cell down.
    pub open spec fn spec_text(&self) -> Seq<char> {
        let width = self.bounds.size.width;
        spec_goto(self.bounds.origin) + spec_fg_code(TermColor::Reset) + spec_repeat(
            spec_repeat(seq![' '], width as nat) + spec_step(width),
            self.bounds.size.height as nat,
        )
    }

    /// The blanking as drawn (see `spec_text`).
    pub fn fmt(&self) -> (s: String)
        requires
            self.bounds.origin.x < u16::MAX,
            self.bounds.origin.y < u16::MAX,
        ensures
            s@ == self.spec_text(),
    {
        let width = self.bounds.size.width;
        let mut s = goto(self.bounds.origin);
        let reset = fg_code(TermColor::Reset);
        s.append(reset.as_str());
        proof {
            reveal_strlit(" ");
        }
        let mut row = repeat(" ", width);
        let down = down_code(1);
        let left = left_code(width);
        row.append(down.as_str());
        row.append(left.as_str());
        assert(" "@ =~= seq![' ']);
        assert(row@ =~= spec_repeat(seq![' '], width as nat) + spec_step(width));
        let rows = repeat(row.as_str(), self.bounds.size.height);
        s.append(rows.as_str());
        s
    }
}

} // verus!
