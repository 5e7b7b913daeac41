//! Points, sizes and rectangles on the terminal, counted in cells from the top-left corner.

use vstd::prelude::*;

use super::escape::{goto_code, spec_goto_code};

verus! {

/// A cell of the terminal; `x` is the column and `y` the row, both from 0.
#[derive(Copy, Clone, Debug, Default, PartialEq, Eq, Structural)]
pub struct Point {
    pub x: u16,
    pub y: u16,
}

/// A width and a height in cells.
#[derive(Copy, Clone, Debug, Default, PartialEq, Eq, Structural)]
pub struct Size {
    pub width: u16,
    pub height: u16,
}

/// Margins on the four sides of a rectangle.
#[derive(Copy, Clone, Debug, Default, PartialEq, Eq, Structural)]
pub struct SideOffsets {
    pub top: u16,
    pub right: u16,
    pub bottom: u16,
    pub left: u16,
}

/// A rectangle of cells: its top-left cell and its size.
#[derive(Copy, Clone, Debug, Default, PartialEq, Eq, Structural)]
pub struct Rect {
    pub origin: Point,
    pub size: Size,
}

/// The point `(x, y)`.
pub fn point2(x: u16, y: u16) -> (p: Point)
    ensures
        p == (Point { x, y }),
{
    Point { x, y }
}

/// The size `width` by `height`.
pub fn size2(width: u16, height: u16) -> (s: Size)
    ensures
        s == (Size { width, height }),
{
    Size { width, height }
}

impl SideOffsets {
    /// The same margin on all four sides.
    pub fn new_all_same(all: u16) -> (o: SideOffsets)
        ensures
            o == (SideOffsets { top: all, right: all, bottom: all, left: all }),
    {
        SideOffsets { top: all, right: all, bottom: all, left: all }
    }

    /// Margins on the top, right, bottom and left.
    pub fn new(top: u16, right: u16, bottom: u16, left: u16) -> (o: SideOffsets)
        ensures
            o == (SideOffsets { top, right, bottom, left }),
    {
        SideOffsets { top, right, bottom, left }
    }

    /// The margins of both added side by side.
    pub fn combined(self, other: SideOffsets) -> (o: SideOffsets)
        requires
            self.top + other.top <= u16::MAX,
            self.right + other.right <= u16::MAX,
            self.bottom + other.bottom <= u16::MAX,
            self.left + other.left <= u16::MAX,
        ensures
            o == (SideOffsets {
                top: (self.top + other.top) as u16,
                right: (self.right + other.right) as u16,
                bottom: (self.bottom + other.bottom) as u16,
                left: (self.left + other.left) as u16,
            }),
    {
        SideOffsets {
            top: self.top + other.top,
            right: self.right + other.right,
            bottom: self.bottom + other.bottom,
            left: self.left + other.left,
        }
    }
}

impl Rect {
    /// The rectangle at `origin` of `size`.
    pub fn new(origin: Point, size: Size) -> (r: Rect)
        ensures
            r == (Rect { origin, size }),
    {
        Rect { origin, size }
    }

    /// The column just right of the rectangle.
    pub open spec fn spec_max_x(self) -> int {
        self.origin.x + self.size.width
    }

    /// The row just below the rectangle.
    pub open spec fn spec_max_y(self) -> int {
        self.origin.y + self.size.height
    }

    /// The column just right of the rectangle.
    pub fn max_x(&self) -> (x: u16)
        requires
            self.spec_max_x() <= u16::MAX,
        ensures
            x == self.spec_max_x(),
    {
        self.origin.x + self.size.width
    }

    /// The row just below the rectangle.
    pub fn max_y(&self) -> (y: u16)
        requires
            self.spec_max_y() <= u16::MAX,
        ensures
            y == self.spec_max_y(),
    {
        self.origin.y + self.size.height
    }

    /// The rectangle shrunk by `offsets` on each side.
    pub fn inner_rect(&self, offsets: SideOffsets) -> (r: Rect)
        requires
            self.origin.x + offsets.left <= u16::MAX,
            self.origin.y + offsets.top <= u16::MAX,
            offsets.left + offsets.right <= self.size.width,
            offsets.top + offsets.bottom <= self.size.height,
        ensures
            r.origin == (Point {
                x: (self.origin.x + offsets.left) as u16,
                y: (self.origin.y + offsets.top) as u16,
            }),
            r.size == (Size {
                width: (self.size.width - offsets.left - offsets.right) as u16,
                height: (self.size.height - offsets.top - offsets.bottom) as u16,
            }),
    {
        Rect {
            origin: Point { x: self.origin.x + offsets.left, y: self.origin.y + offsets.top },
            size: Size {
                width: self.size.width - offsets.left - offsets.right,
                height: self.size.height - offsets.top - offsets.bottom,
            },
        }
    }

    /// The rectangle grown by `offsets` on each side.
    pub fn outer_rect(&self, offsets: SideOffsets) -> (r: Rect)
        requires
            offsets.left <= self.origin.x,
            offsets.top <= self.origin.y,
            self.size.width + offsets.left + offsets.right <= u16::MAX,
            self.size.height + offsets.top + offsets.bottom <= u16::MAX,
        ensures
            r.origin == (Point {
                x: (self.origin.x - offsets.left) as u16,
                y: (self.origin.y - offsets.top) as u16,
            }),
            r.size == (Size {
                width: (self.size.width + offsets.left + offsets.right) as u16,
                height: (self.size.height + offsets.top + offsets.bottom) as u16,
            }),
    {
        Rect {
            origin: Point { x: self.origin.x - offsets.left, y: self.origin.y - offsets.top },
            size: Size {
                width: self.size.width + offsets.left + offsets.right,
                height: self.size.height + offsets.top + offsets.bottom,
            },
        }
    }
}

/// Moves the cursor to `point`; the terminal counts cells from 1.
pub open spec fn spec_goto(point: Point) -> Seq<char> {
    spec_goto_code((point.x + 1) as u16, (point.y + 1) as u16)
}

/// The escape code that moves the cursor to `point`.
pub fn goto(point: Point) -> (s: String)
    requires
        point.x < u16::MAX,
        point.y < u16::MAX,
    ensures
        s@ == spec_goto(point),
{
    goto_code(point.x + 1, point.y + 1)
}

} // verus!
