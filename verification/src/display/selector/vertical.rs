//! The pieces of a selector drawn beside a column of cards.

use vstd::prelude::*;

use super::super::escape::{down_code, left_code, spec_move_code};
use super::super::geometry::{size2, Point, Rect, Size};

verus! {

/// The top end of the selector.
pub fn write_start() -> (s: &'static str)
    ensures
        s@ == "╓╴"@,
{
    "╓╴"
}

/// A middle piece of the selector.
pub fn write_middle() -> (s: &'static str)
    ensures
        s@ == "║ "@,
{
    "║ "
}

/// The bottom end of the selector.
pub fn write_end() -> (s: &'static str)
    ensures
        s@ == "╙╴"@,
{
    "╙╴"
}

/// What moves to the next piece: two cells back and one down.
pub fn write_next() -> (s: String)
    ensures
        s@ == spec_move_code(2, 'D') + spec_move_code(1, 'B'),
{
    let mut s = left_code(2);
    let down = down_code(1);
    s.append(down.as_str());
    s
}

/// The cells of a selector of `len` pieces at `coords`: two columns.
pub fn bounds(coords: Point, len: u16) -> (r: Rect)
    ensures
        r == (Rect { origin: coords, size: Size { width: 2, height: len } }),
{
    Rect::new(coords, size2(2, len))
}

} // verus!
