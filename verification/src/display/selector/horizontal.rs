//! The pieces of a selector drawn under a row of cards.

use vstd::prelude::*;

use super::super::geometry::{size2, Point, Rect, Size};

verus! {

/// The left end of the selector.
pub fn write_start() -> (s: &'static str)
    ensures
        s@ == "╘"@,
{
    "╘"
}

/// A middle piece of the selector.
pub fn write_middle() -> (s: &'static str)
    ensures
        s@ == "═"@,
{
    "═"
}

/// The right end of the selector.
pub fn write_end() -> (s: &'static str)
    ensures
        s@ == "╛"@,
{
    "╛"
}

/// What moves to the next piece: nothing, as the pieces follow each other on the line.
pub fn write_next() -> (s: String)
    ensures
        s@ == Seq::<char>::empty(),
{
    String::new()
}

/// The cells of a selector of `len` pieces at `coords`: one row.
pub fn bounds(coords: Point, len: u16) -> (r: Rect)
    ensures
        r == (Rect { origin: coords, size: Size { width: len, height: 1 } }),
{
    Rect::new(coords, size2(len, 1))
}

} // verus!
