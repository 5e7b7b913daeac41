//! Signed positions and offsets on the terminal.

use vstd::prelude::*;

verus! {

/// A position or an offset: `x` counts columns and `y` rows.
#[derive(Copy, Clone, Debug, Default, PartialEq, Eq, Structural)]
pub struct Coords {
    pub x: i32,
    pub y: i32,
}

/// Whether `v` fits an `i32`.
pub open spec fn spec_i32(v: int) -> bool {
    i32::MIN <= v <= i32::MAX
}

impl Coords {
    /// The position `(x, y)`.
    pub fn from_xy(x: i32, y: i32) -> (c: Coords)
        ensures
            c == (Coords { x, y }),
    {
        Coords { x, y }
    }

    /// The offset of `x` columns.
    pub fn x(x: i32) -> (c: Coords)
        ensures
            c == (Coords { x, y: 0 }),
    {
        Coords { x, y: 0 }
    }

    /// The offset of `y` rows.
    pub fn y(y: i32) -> (c: Coords)
        ensures
            c == (Coords { x: 0, y }),
    {
        Coords { x: 0, y }
    }

    /// The column part only.
    pub fn to_x(&self) -> (c: Coords)
        ensures
            c == (Coords { x: self.x, y: 0 }),
    {
        Coords { x: self.x, y: 0 }
    }

    /// The row part only.
    pub fn to_y(&self) -> (c: Coords)
        ensures
            c == (Coords { x: 0, y: self.y }),
    {
        Coords { x: 0, y: self.y }
    }

    /// The sum of both, part by part.
    pub fn add(self, other: Coords) -> (c: Coords)
        requires
            spec_i32(self.x + other.x),
            spec_i32(self.y + other.y),
        ensures
            c == (Coords { x: (self.x + other.x) as i32, y: (self.y + other.y) as i32 }),
    {
        Coords { x: self.x + other.x, y: self.y + other.y }
    }

    /// Adds `other`, part by part.
    pub fn add_assign(&mut self, other: Coords)
        requires
            spec_i32(old(self).x + other.x),
            spec_i32(old(self).y + other.y),
        ensures
            *final(self) == (Coords {
                x: (old(self).x + other.x) as i32,
                y: (old(self).y + other.y) as i32,
            }),
    {
        self.x = self.x + other.x;
        self.y = self.y + other.y;
    }

    /// The difference of both, part by part.
    pub fn sub(self, other: Coords) -> (c: Coords)
        requires
            spec_i32(self.x - other.x),
            spec_i32(self.y - other.y),
        ensures
            c == (Coords { x: (self.x - other.x) as i32, y: (self.y - other.y) as i32 }),
    {
        Coords { x: self.x - other.x, y: self.y - other.y }
    }

    /// Subtracts `other`, part by part.
    pub fn sub_assign(&mut self, other: Coords)
        requires
            spec_i32(old(self).x - other.x),
            spec_i32(old(self).y - other.y),
        ensures
            *final(self) == (Coords {
                x: (old(self).x - other.x) as i32,
                y: (old(self).y - other.y) as i32,
            }),
    {
        self.x = self.x - other.x;
        self.y = self.y - other.y;
    }

    /// Both parts multiplied by `scalar`.
    pub fn mul(self, scalar: i32) -> (c: Coords)
        requires
            spec_i32(scalar * self.x),
            spec_i32(scalar * self.y),
        ensures
            c == (Coords { x: (scalar * self.x) as i32, y: (scalar * self.y) as i32 }),
    {
        Coords { x: scalar * self.x, y: scalar * self.y }
    }

    /// Multiplies both parts by `scalar`.
    pub fn mul_assign(&mut self, scalar: i32)
        requires
            spec_i32(old(self).x * scalar),
            spec_i32(old(self).y * scalar),
        ensures
            *final(self) == (Coords {
                x: (old(self).x * scalar) as i32,
                y: (old(self).y * scalar) as i32,
            }),
    {
        self.x = self.x * scalar;
        self.y = self.y * scalar;
    }

    /// Whether this comes before or at `other`, comparing columns first and then rows.
    pub open spec fn spec_le(self, other: Coords) -> bool {
        self.x < other.x || (self.x == other.x && self.y <= other.y)
    }

    /// Whether this comes strictly before `other`, comparing columns first and then rows.
    pub open spec fn spec_lt(self, other: Coords) -> bool {
        self.x < other.x || (self.x == other.x && self.y < other.y)
    }

    /// Whether this comes before or at `other` (see `spec_le`).
    pub fn le(&self, other: &Coords) -> (b: bool)
        ensures
            b == self.spec_le(*other),
    {
        self.x < other.x || (self.x == other.x && self.y <= other.y)
    }

    /// Whether this comes strictly before `other` (see `spec_lt`).
    pub fn lt(&self, other: &Coords) -> (b: bool)
        ensures
            b == self.spec_lt(*other),
    {
        self.x < other.x || (self.x == other.x && self.y < other.y)
    }
}

} // verus!
