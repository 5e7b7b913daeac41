//! Rectangles given by their top-left and bottom-right corners.

use vstd::prelude::*;

use super::coords::{spec_i32, Coords};
use core::cmp::Ordering;

verus! {

/// A rectangle from `top_left` to `bottom_right`, both included.
#[derive(Clone, Copy, Debug, Eq, PartialEq, Structural)]
pub struct Bounds {
    pub top_left: Coords,
    pub bottom_right: Coords,
}

impl Bounds {
    /// The rectangle between two corners; the first must not come after the second.
    pub fn new(top_left: Coords, bottom_right: Coords) -> (b: Bounds)
        requires
            top_left.spec_le(bottom_right),
        ensures
            b == (Bounds { top_left, bottom_right }),
    {
        Bounds { top_left, bottom_right }
    }

    /// The rectangle at `top_left` of `size`: a rectangle of size 1 by 1 is a single cell.
    pub fn with_size(top_left: Coords, size: Coords) -> (b: Bounds)
        requires
            spec_i32(top_left.x + size.x),
            spec_i32(top_left.y + size.y),
            spec_i32(top_left.x + size.x - 1),
            spec_i32(top_left.y + size.y - 1),
        ensures
            b.top_left == top_left,
            b.bottom_right == (Coords {
                x: (top_left.x + size.x - 1) as i32,
                y: (top_left.y + size.y - 1) as i32,
            }),
    {
        let bottom_right = top_left.add(size).sub(Coords::from_xy(1, 1));
        Bounds { top_left, bottom_right }
    }

    /// Whether `coords` lies between the corners, comparing columns first and then rows.
    pub fn contains(&self, coords: Coords) -> (b: bool)
        ensures
            b == (self.top_left.spec_le(coords) && coords.spec_le(self.bottom_right)),
    {
        self.top_left.le(&coords) && coords.le(&self.bottom_right)
    }

    /// The cells from the top-left corner up to, but not including, the bottom-right row and
    /// column, row by row.
    pub open spec fn spec_coords(&self) -> Seq<Coords> {
        let width = if self.bottom_right.x >= self.top_left.x {
            self.bottom_right.x - self.top_left.x
        } else {
            0
        };
        let height = if self.bottom_right.y >= self.top_left.y {
            self.bottom_right.y - self.top_left.y
        } else {
            0
        };
        Seq::new(
            (width * height) as nat,
            |i: int|
                Coords {
                    x: (self.top_left.x + i % width) as i32,
                    y: (self.top_left.y + i / width) as i32,
                },
        )
    }

    /// The cells of the rectangle but its last row and column (see `spec_coords`).
    pub fn coords_iter(&self) -> (cells: Vec<Coords>)
        ensures
            cells@ == self.spec_coords(),
    {
        let mut cells: Vec<Coords> = Vec::new();
        let ghost width: int = if self.bottom_right.x >= self.top_left.x {
            self.bottom_right.x - self.top_left.x
        } else {
            0
        };
        let mut y = self.top_left.y;
        while y < self.bottom_right.y
            invariant
                self.top_left.y <= y,
                y <= self.bottom_right.y || y == self.top_left.y,
                width == (if self.bottom_right.x >= self.top_left.x {
                    self.bottom_right.x - self.top_left.x
                } else {
                    0
                }),
                cells@ =~= self.spec_coords().take((width * (y - self.top_left.y)) as int),
                width * (y - self.top_left.y) <= self.spec_coords().len(),
            decreases self.bottom_right.y - y,
        {
            let mut x = self.top_left.x;
            while x < self.bottom_right.x
                invariant
                    self.top_left.x <= x,
                    x <= self.bottom_right.x || x == self.top_left.x,
                    self.top_left.y <= y < self.bottom_right.y,
                    width == (if self.bottom_right.x >= self.top_left.x {
                        self.bottom_right.x - self.top_left.x
                    } else {
                        0
                    }),
                    cells@ =~= self.spec_coords().take(
                        (width * (y - self.top_left.y) + (x - self.top_left.x)) as int,
                    ),
                decreases self.bottom_right.x - x,
            {
                proof {
                    let r = y - self.top_left.y;
                    let c = x - self.top_left.x;
                    let height = self.bottom_right.y - self.top_left.y;
                    let n = width * r + c;
                    assert(n % width == c && n / width == r) by (nonlinear_arith)
                        requires
                            width > 0,
                            0 <= c < width,
                            r >= 0,
                            n == width * r + c,
                    ;
                    assert(n < width * height) by (nonlinear_arith)
                        requires
                            0 <= r < height,
                            0 <= c < width,
                            n == width * r + c,
                    ;
                    assert(self.spec_coords()[n] == Coords { x, y });
                }
                cells.push(Coords { x, y });
                x = x + 1;
            }
            proof {
                let r = y - self.top_left.y;
                let height = self.bottom_right.y - self.top_left.y;
                assert(width * r + width == width * (r + 1)) by (nonlinear_arith);
                assert(width * (r + 1) <= width * height) by (nonlinear_arith)
                    requires
                        0 <= r < height,
                        width >= 0,
                ;
                if width == 0 {
                    assert(x == self.top_left.x);
                }
            }
            y = y + 1;
        }
        cells
    }

    /// The smallest rectangle holding both (see `add_assign`).
    pub fn add(self, other: Bounds) -> (b: Bounds)
        ensures
            b.top_left == (Coords {
                x: if self.top_left.x <= other.top_left.x {
                    self.top_left.x
                } else {
                    other.top_left.x
                },
                y: if self.top_left.y <= other.top_left.y {
                    self.top_left.y
                } else {
                    other.top_left.y
                },
            }),
            b.bottom_right == (Coords {
                x: if self.bottom_right.x >= other.bottom_right.x {
                    self.bottom_right.x
                } else {
                    other.bottom_right.x
                },
                y: if self.bottom_right.y >= other.bottom_right.y {
                    self.bottom_right.y
                } else {
                    other.bottom_right.y
                },
            }),
    {
        let mut value = self;
        value.add_assign(other);
        value
    }

    /// The smallest rectangle holding both.
    pub fn add_assign(&mut self, other: Bounds)
        ensures
            final(self).top_left == (Coords {
                x: if old(self).top_left.x <= other.top_left.x {
                    old(self).top_left.x
                } else {
                    other.top_left.x
                },
                y: if old(self).top_left.y <= other.top_left.y {
                    old(self).top_left.y
                } else {
                    other.top_left.y
                },
            }),
            final(self).bottom_right == (Coords {
                x: if old(self).bottom_right.x >= other.bottom_right.x {
                    old(self).bottom_right.x
                } else {
                    other.bottom_right.x
                },
                y: if old(self).bottom_right.y >= other.bottom_right.y {
                    old(self).bottom_right.y
                } else {
                    other.bottom_right.y
                },
            }),
    {
        let left = if self.top_left.x <= other.top_left.x {
            self.top_left.x
        } else {
            other.top_left.x
        };
        let top = if self.top_left.y <= other.top_left.y {
            self.top_left.y
        } else {
            other.top_left.y
        };
        let right = if self.bottom_right.x >= other.bottom_right.x {
            self.bottom_right.x
        } else {
            other.bottom_right.x
        };
        let bottom = if self.bottom_right.y >= other.bottom_right.y {
            self.bottom_right.y
        } else {
            other.bottom_right.y
        };
        self.top_left = Coords { x: left, y: top };
        self.bottom_right = Coords { x: right, y: bottom };
    }

    /// How two rectangles compare: equal ones are equal; one whose corners both lie strictly
    /// outside the other's is greater, strictly inside is less; others do not compare.
    pub fn partial_cmp(&self, other: &Bounds) -> (r: Option<Ordering>)
        ensures
            r == if *self == *other {
                Some(Ordering::Equal)
            } else if self.top_left.spec_lt(other.top_left) && other.bottom_right.spec_lt(
                self.bottom_right,
            ) {
                Some(Ordering::Greater)
            } else if other.top_left.spec_lt(self.top_left) && self.bottom_right.spec_lt(
                other.bottom_right,
            ) {
                Some(Ordering::Less)
            } else {
                None
            },
    {
        if *self == *other {
            Some(Ordering::Equal)
        } else if self.top_left.lt(&other.top_left) && other.bottom_right.lt(&self.bottom_right) {
            Some(Ordering::Greater)
        } else if other.top_left.lt(&self.top_left) && self.bottom_right.lt(&other.bottom_right) {
            Some(Ordering::Less)
        } else {
            None
        }
    }
}

} // verus!
