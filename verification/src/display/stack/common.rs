//! Where the cards of a stack are drawn, whichever way it is spread.

use vstd::prelude::*;

use super::super::geometry::Point;
use crate::model::stack::StackDetails;
use crate::utils::spec_bounded_sub;

verus! {

/// A step on the terminal, in cells; it may go left or up.
#[derive(Copy, Clone, Debug, Default, PartialEq, Eq, Structural)]
pub struct Vector {
    pub x: i16,
    pub y: i16,
}

/// How far apart the cards of a stack are drawn, and how many of them are collapsed to fit.
#[derive(Copy, Clone, Debug, PartialEq, Eq, Structural)]
pub struct Offsets {
    /// Between visible cards that are not spread.
    pub unspread: Vector,
    /// Between spread cards that are collapsed.
    pub collapsed_spread: Vector,
    /// Between spread cards that are not collapsed.
    pub uncollapsed_spread: Vector,
    /// The shift of held cards.
    pub selected: Vector,
    /// How many unspread cards are drawn as one slice.
    pub collapse_unspread_len: usize,
    /// How many spread cards are drawn as slices.
    pub collapse_spread_len: usize,
}

/// Whether `v` fits an `i16`.
pub open spec fn spec_i16(v: int) -> bool {
    i16::MIN <= v <= i16::MAX
}

/// For the card at `index`, how many unspread, collapsed and uncollapsed steps lie between
/// the first visible card and it; none for a card that is not shown.
pub open spec fn spec_card_steps(index: int, offsets: Offsets, details: StackDetails) -> Option<
    (int, int, int),
> {
    let visible = spec_bounded_sub(details.len, details.visible_len) + offsets.collapse_unspread_len;
    let collapsed = spec_bounded_sub(details.len, details.spread_len) as int;
    let uncollapsed = collapsed + offsets.collapse_spread_len;
    if index >= uncollapsed {
        Some((collapsed - visible, uncollapsed - collapsed, index - uncollapsed))
    } else if index >= collapsed {
        Some((collapsed - visible, index - collapsed, 0))
    } else if index >= visible {
        Some((index - visible, 0, 0))
    } else {
        None
    }
}

/// Whether the card at `index` is shifted because it is held: it is at or above the first
/// selected card, which is held.
pub open spec fn spec_is_shifted(index: int, details: StackDetails) -> bool {
    details.selection matches Some(selection) && selection.held && index >= spec_bounded_sub(
        details.len,
        selection.len,
    )
}

/// One coordinate of a card: from the origin, its steps of each kind, and the shift of held
/// cards.
pub open spec fn spec_axis(
    origin: int,
    steps: (int, int, int),
    unspread: int,
    collapsed: int,
    uncollapsed: int,
    shift: int,
) -> int {
    origin + unspread * steps.0 + collapsed * steps.1 + uncollapsed * steps.2 + shift
}

/// Whether one coordinate of a card can be computed in `i16` and lands on the terminal: the
/// origin, every product and every partial sum fit, and the result is not negative.
pub open spec fn spec_axis_ok(
    origin: int,
    steps: (int, int, int),
    unspread: int,
    collapsed: int,
    uncollapsed: int,
    shift: int,
) -> bool {
    let a1 = origin + unspread * steps.0;
    let a2 = a1 + collapsed * steps.1;
    let a3 = a2 + uncollapsed * steps.2;
    &&& spec_i16(origin)
    &&& spec_i16(unspread * steps.0)
    &&& spec_i16(collapsed * steps.1)
    &&& spec_i16(uncollapsed * steps.2)
    &&& spec_i16(a1)
    &&& spec_i16(a2)
    &&& spec_i16(a3)
    &&& spec_i16(a3 + shift)
    &&& a3 + shift >= 0
}

/// Whether the position of the card at `index` can be computed: the indices do not
/// overflow, the steps are counted forward and fit an `i16`, and both coordinates can be
/// computed (see `spec_axis_ok`).
pub open spec fn spec_card_coords_ok(
    origin: Point,
    index: int,
    offsets: Offsets,
    details: StackDetails,
) -> bool {
    let visible = spec_bounded_sub(details.len, details.visible_len) + offsets.collapse_unspread_len;
    let collapsed = spec_bounded_sub(details.len, details.spread_len) as int;
    &&& visible <= usize::MAX
    &&& collapsed + offsets.collapse_spread_len <= usize::MAX
    &&& spec_card_steps(index, offsets, details) matches Some(steps) ==> {
        let shift = if spec_is_shifted(index, details) {
            offsets.selected
        } else {
            Vector { x: 0, y: 0 }
        };
        &&& 0 <= steps.0 <= i16::MAX
        &&& 0 <= steps.1 <= i16::MAX
        &&& 0 <= steps.2 <= i16::MAX
        &&& spec_axis_ok(
            origin.x as int,
            steps,
            offsets.unspread.x as int,
            offsets.collapsed_spread.x as int,
            offsets.uncollapsed_spread.x as int,
            shift.x as int,
        )
        &&& spec_axis_ok(
            origin.y as int,
            steps,
            offsets.unspread.y as int,
            offsets.collapsed_spread.y as int,
            offsets.uncollapsed_spread.y as int,
            shift.y as int,
        )
    }
}

/// Where the card at `index` is drawn: the origin, moved by each unspread, collapsed and
/// uncollapsed step before it, and shifted when it is held; nowhere when it is not shown.
pub open spec fn spec_card_coords(
    origin: Point,
    index: int,
    offsets: Offsets,
    details: StackDetails,
) -> Option<Point> {
    match spec_card_steps(index, offsets, details) {
        Some(steps) => {
            let shift = if spec_is_shifted(index, details) {
                offsets.selected
            } else {
                Vector { x: 0, y: 0 }
            };
            Some(
                Point {
                    x: spec_axis(
                        origin.x as int,
                        steps,
                        offsets.unspread.x as int,
                        offsets.collapsed_spread.x as int,
                        offsets.uncollapsed_spread.x as int,
                        shift.x as int,
                    ) as u16,
                    y: spec_axis(
                        origin.y as int,
                        steps,
                        offsets.unspread.y as int,
                        offsets.collapsed_spread.y as int,
                        offsets.uncollapsed_spread.y as int,
                        shift.y as int,
                    ) as u16,
                },
            )
        },
        None => None,
    }
}

/// The shift of the card at `index`: the offset of held cards when it is held, none otherwise.
pub fn card_shift(index: usize, offsets: &Offsets, details: &StackDetails) -> (v: Vector)
    ensures
        v == if spec_is_shifted(index as int, *details) {
            offsets.selected
        } else {
            Vector { x: 0, y: 0 }
        },
{
    match details.selection_index() {
        Some(selection_index) => if details.held() && index >= selection_index {
            offsets.selected
        } else {
            Vector { x: 0, y: 0 }
        },
        None => Vector { x: 0, y: 0 },
    }
}

/// One coordinate of a card (see `spec_axis`).
fn axis(origin: u16, steps: (usize, usize, usize), unspread: i16, collapsed: i16, uncollapsed: i16, shift: i16) -> (v: u16)
    requires
        steps.0 <= i16::MAX,
        steps.1 <= i16::MAX,
        steps.2 <= i16::MAX,
        spec_axis_ok(
            origin as int,
            (steps.0 as int, steps.1 as int, steps.2 as int),
            unspread as int,
            collapsed as int,
            uncollapsed as int,
            shift as int,
        ),
    ensures
        v == spec_axis(
            origin as int,
            (steps.0 as int, steps.1 as int, steps.2 as int),
            unspread as int,
            collapsed as int,
            uncollapsed as int,
            shift as int,
        ),
{
    let a0 = origin as i32;
    let p1 = unspread as i32 * steps.0 as i32;
    let p2 = collapsed as i32 * steps.1 as i32;
    let p3 = uncollapsed as i32 * steps.2 as i32;
    let total = a0 + p1 + p2 + p3 + shift as i32;
    total as u16
}

/// Where the card at `index` is drawn (see `spec_card_coords`).
pub fn card_coords(origin: Point, index: usize, offsets: &Offsets, details: &StackDetails) -> (p:
    Option<Point>)
    requires
        spec_card_coords_ok(origin, index as int, *offsets, *details),
    ensures
        p == spec_card_coords(origin, index as int, *offsets, *details),
{
    let visible_index = details.visible_index() + offsets.collapse_unspread_len;
    let collapsed_spread_index = details.spread_index();
    let uncollapsed_spread_index = collapsed_spread_index + offsets.collapse_spread_len;
    let steps: (usize, usize, usize) = if index >= uncollapsed_spread_index {
        (
            collapsed_spread_index - visible_index,
            uncollapsed_spread_index - collapsed_spread_index,
            index - uncollapsed_spread_index,
        )
    } else if index >= collapsed_spread_index {
        (collapsed_spread_index - visible_index, index - collapsed_spread_index, 0)
    } else if index >= visible_index {
        (index - visible_index, 0, 0)
    } else {
        return None;
    };
    let shift = card_shift(index, offsets, details);
    let x = axis(
        origin.x,
        steps,
        offsets.unspread.x,
        offsets.collapsed_spread.x,
        offsets.uncollapsed_spread.x,
        shift.x,
    );
    let y = axis(
        origin.y,
        steps,
        offsets.unspread.y,
        offsets.collapsed_spread.y,
        offsets.uncollapsed_spread.y,
        shift.y,
    );
    Some(Point { x, y })
}

/// Whether `v` fits an `i16`.
pub fn fits_i16(v: i64) -> (b: bool)
    ensures
        b == spec_i16(v as int),
{
    -32768 <= v && v <= 32767
}

/// Whether one coordinate of a card can be computed (see `spec_axis_ok`).
fn axis_ok(
    origin: u16,
    steps: (usize, usize, usize),
    unspread: i16,
    collapsed: i16,
    uncollapsed: i16,
    shift: i16,
) -> (b: bool)
    requires
        steps.0 <= i16::MAX,
        steps.1 <= i16::MAX,
        steps.2 <= i16::MAX,
    ensures
        b == spec_axis_ok(
            origin as int,
            (steps.0 as int, steps.1 as int, steps.2 as int),
            unspread as int,
            collapsed as int,
            uncollapsed as int,
            shift as int,
        ),
{
    let s0 = steps.0 as i64;
    let s1 = steps.1 as i64;
    let s2 = steps.2 as i64;
    proof {
        assert(-32768 * 32767 <= unspread * s0 <= 32767 * 32767) by (nonlinear_arith)
            requires
                -32768 <= unspread <= 32767,
                0 <= s0 <= 32767,
        ;
        assert(-32768 * 32767 <= collapsed * s1 <= 32767 * 32767) by (nonlinear_arith)
            requires
                -32768 <= collapsed <= 32767,
                0 <= s1 <= 32767,
        ;
        assert(-32768 * 32767 <= uncollapsed * s2 <= 32767 * 32767) by (nonlinear_arith)
            requires
                -32768 <= uncollapsed <= 32767,
                0 <= s2 <= 32767,
        ;
    }
    let o = origin as i64;
    let p1 = unspread as i64 * s0;
    let p2 = collapsed as i64 * s1;
    let p3 = uncollapsed as i64 * s2;
    let a1 = o + p1;
    let a2 = a1 + p2;
    let a3 = a2 + p3;
    let end = a3 + shift as i64;
    fits_i16(o) && fits_i16(p1) && fits_i16(p2) && fits_i16(p3) && fits_i16(a1) && fits_i16(a2)
        && fits_i16(a3) && fits_i16(end) && end >= 0
}

/// Where the card at `index` is drawn (see `spec_card_coords`), or `None` when that cannot be
/// computed (see `spec_card_coords_ok`).
pub fn card_coords_checked(origin: Point, index: usize, offsets: &Offsets, details: &StackDetails) -> (r:
    Option<Option<Point>>)
    ensures
        r is Some <==> spec_card_coords_ok(origin, index as int, *offsets, *details),
        r matches Some(p) ==> p == spec_card_coords(origin, index as int, *offsets, *details),
{
    let visible_index = details.visible_index();
    if visible_index > usize::MAX - offsets.collapse_unspread_len {
        return None;
    }
    let spread_index = details.spread_index();
    if spread_index > usize::MAX - offsets.collapse_spread_len {
        return None;
    }
    let visible = visible_index + offsets.collapse_unspread_len;
    let collapsed = spread_index;
    let uncollapsed = collapsed + offsets.collapse_spread_len;
    let steps: (usize, usize, usize) = if index >= uncollapsed {
        if collapsed < visible {
            return None;
        }
        (collapsed - visible, uncollapsed - collapsed, index - uncollapsed)
    } else if index >= collapsed {
        if collapsed < visible {
            return None;
        }
        (collapsed - visible, index - collapsed, 0)
    } else if index >= visible {
        (index - visible, 0, 0)
    } else {
        return Some(None);
    };
    if steps.0 > 32767 || steps.1 > 32767 || steps.2 > 32767 {
        return None;
    }
    let shift = card_shift(index, offsets, details);
    let x_ok = axis_ok(
        origin.x,
        steps,
        offsets.unspread.x,
        offsets.collapsed_spread.x,
        offsets.uncollapsed_spread.x,
        shift.x,
    );
    let y_ok = axis_ok(
        origin.y,
        steps,
        offsets.unspread.y,
        offsets.collapsed_spread.y,
        offsets.uncollapsed_spread.y,
        shift.y,
    );
    if x_ok && y_ok {
        Some(card_coords(origin, index, offsets, details))
    } else {
        None
    }
}

} // verus!
