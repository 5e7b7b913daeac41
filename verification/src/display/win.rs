//! The message shown when the game is won.

use vstd::prelude::*;

use super::format_str::FormattedString;
use super::frame::{double, spec_double_style, spec_frame_text, Direction, FrameWidget, Title};
use super::geometry::{goto, point2, size2, spec_goto, Point, Rect, SideOffsets, Size};

verus! {

/// Announces the win in a double frame centered in `bounds`.
#[derive(Debug)]
pub struct WinWidget {
    pub bounds: Rect,
}

impl WinWidget {
    /// The top-left cell of the message: its 20 by 3 cells centered in the bounds, the smaller
    /// half of the space left and above.
    pub open spec fn spec_inner_origin(&self) -> Point {
        let width = self.bounds.size.width as int;
        let height = self.bounds.size.height as int;
        let left = if width >= 20 {
            (width - 20) / 2
        } else {
            0
        };
        let top = if height >= 3 {
            (height - 3) / 2
        } else {
            0
        };
        Point { x: (self.bounds.origin.x + left) as u16, y: (self.bounds.origin.y + top) as u16 }
    }

    /// The message fits the terminal's coordinates, frame included.
    pub open spec fn spec_drawable(&self) -> bool {
        let inner = self.spec_inner_origin();
        &&& self.bounds.origin.x + self.bounds.size.width <= u16::MAX
        &&& self.bounds.origin.y + self.bounds.size.height <= u16::MAX
        &&& inner.x >= 3
        &&& inner.y >= 2
        &&& inner.x + 20 < u16::MAX
        &&& inner.y + 3 < u16::MAX
    }

    /// Whether the message can be drawn (see `spec_drawable`).
    pub fn is_drawable(&self) -> (b: bool)
        ensures
            b == self.spec_drawable(),
    {
        let bounds = self.bounds;
        let right = bounds.origin.x as u32 + bounds.size.width as u32;
        let bottom = bounds.origin.y as u32 + bounds.size.height as u32;
        if right > 65535 || bottom > 65535 {
            return false;
        }
        let left: u32 = if bounds.size.width >= 20 {
            (bounds.size.width as u32 - 20) / 2
        } else {
            0
        };
        let top: u32 = if bounds.size.height >= 3 {
            (bounds.size.height as u32 - 3) / 2
        } else {
            0
        };
        let x = bounds.origin.x as u32 + left;
        let y = bounds.origin.y as u32 + top;
        x >= 3 && y >= 2 && x + 20 < 65535 && y + 3 < 65535
    }

    /// The message as drawn: a double frame titled `Y O U   W I N !` two cells above and three
    /// cells left and right of the message, then `Congratulations!` on the first line of the
    /// message and `New Game? (Y/N)` on its third.
    pub open spec fn spec_text(&self) -> Seq<char> {
        let inner = self.spec_inner_origin();
        let frame_bounds = Rect {
            origin: Point { x: (inner.x - 3) as u16, y: (inner.y - 2) as u16 },
            size: Size { width: 26, height: 7 },
        };
        spec_frame_text(
            frame_bounds,
            spec_double_style(),
            Some(("Y O U   W I N !"@, "Y O U   W I N !"@.len() as int, Direction::Center)),
            None,
        ) + spec_goto(inner) + "Congratulations!"@ + spec_goto(
            Point { x: inner.x, y: (inner.y + 2) as u16 },
        ) + "New Game? (Y/N)"@
    }

    /// The area the widget covers.
    pub fn bounds(&self) -> (r: Rect)
        ensures
            r == self.bounds,
    {
        self.bounds
    }

    /// The message as drawn (see `spec_text`).
    pub fn fmt(&self) -> (s: String)
        requires
            self.spec_drawable(),
        ensures
            s@ == self.spec_text(),
    {
        let width = self.bounds.size.width;
        let height = self.bounds.size.height;
        let left_offset = if width >= 20 {
            (width - 20) / 2
        } else {
            0
        };
        let top_offset = if height >= 3 {
            (height - 3) / 2
        } else {
            0
        };
        let inner_origin = point2(self.bounds.origin.x + left_offset, self.bounds.origin.y + top_offset);
        let inner_bounds = Rect::new(inner_origin, size2(20, 3));
        let border = SideOffsets::new_all_same(1);
        let padding = SideOffsets::new(1, 2, 1, 2);
        let frame_bounds = inner_bounds.outer_rect(border.combined(padding));
        let style = double();
        proof {
            reveal_strlit("╡ ");
            reveal_strlit(" ╞");
            reveal_strlit("Y O U   W I N !");
        }
        let frame = FrameWidget {
            bounds: frame_bounds,
            top_title: Some(Title::center(FormattedString::of_content("Y O U   W I N !"))),
            bottom_title: None,
            frame_style: &style,
        };
        let mut s = frame.fmt();
        let line1 = goto(inner_origin);
        let line2 = goto(point2(inner_origin.x, inner_origin.y + 2));
        s.append(line1.as_str());
        s.append("Congratulations!");
        s.append(line2.as_str());
        s.append("New Game? (Y/N)");
        s
    }
}

} // verus!
