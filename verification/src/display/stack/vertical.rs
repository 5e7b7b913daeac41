//! Stacks spread downwards: the tableaux, collapsed to fit the rows below them.

use vstd::prelude::*;

use super::super::card::{CardWidget, CardWidgetMode};
use super::super::geometry::Point;
use super::super::selector::SelectorWidget;
use super::common::{
    card_coords, card_coords_checked, fits_i16, spec_card_coords, spec_card_coords_ok, spec_i16,
    Offsets, Vector,
};
use super::card_iter;
use super::{
    spec_all_coords_ok, spec_card_widgets, spec_first_shown, spec_selector_end,
    spec_shown_len, StackView, StackWidget,
};
use crate::model::stack::StackDetails;
use crate::utils::{bounded_sub, spec_bounded_sub};

verus! {

/// The offsets of a stack spread downwards before collapsing: one row between unspread cards
/// and between collapsed spread ones, two between other spread ones, held cards shifted one
/// cell right.
pub open spec fn spec_uncollapsed_offsets() -> Offsets {
    Offsets {
        unspread: Vector { x: 0, y: 1 },
        collapsed_spread: Vector { x: 0, y: 1 },
        uncollapsed_spread: Vector { x: 0, y: 2 },
        selected: Vector { x: 1, y: 0 },
        collapse_unspread_len: 0,
        collapse_spread_len: 0,
    }
}

/// How many rows the stack, drawn with `offsets`, reaches below the bottom of its bounds: the
/// bottom of its last card past the bounds' bottom, or 0.
pub open spec fn spec_collapse_len(v: StackView, offsets: Offsets) -> int {
    let cards = v.cards;
    if cards.len() == 0 {
        0
    } else {
        let last = match spec_card_coords(
            v.bounds.origin,
            cards.len() - 1,
            offsets,
            v.details,
        ) {
            Some(p) => p,
            None => Point { x: 0, y: 0 },
        };
        let bottom = last.y + 4;
        if bottom >= v.bounds.spec_max_y() {
            bottom - v.bounds.spec_max_y()
        } else {
            0
        }
    }
}

/// Whether the overflow of the stack drawn with `offsets` can be computed.
pub open spec fn spec_collapse_ok(v: StackView, offsets: Offsets) -> bool {
    let cards = v.cards;
    &&& v.bounds.spec_max_y() <= u16::MAX
    &&& cards.len() > 0 ==> {
        let last = spec_card_coords(v.bounds.origin, cards.len() - 1, offsets, v.details);
        &&& spec_card_coords_ok(v.bounds.origin, cards.len() - 1, offsets, v.details)
        &&& last matches Some(p) ==> p.y + 4 <= u16::MAX
    }
}

/// How many rows the stack drawn with `offsets` reaches below its bounds.
fn collapse_len(widget: &StackWidget, offsets: &Offsets) -> (n: u16)
    requires
        spec_collapse_ok(widget.spec_view(), *offsets),
    ensures
        n == spec_collapse_len(widget.spec_view(), *offsets),
{
    let cards = widget.stack.cards;
    if cards.len() == 0 {
        return 0;
    }
    let last = match card_coords(widget.bounds.origin, cards.len() - 1, offsets, &widget.stack.details) {
        Some(p) => p,
        None => Point { x: 0, y: 0 },
    };
    let bottom = last.y + 4;
    let maximum_y = widget.bounds.max_y();
    if bottom >= maximum_y {
        bottom - maximum_y
    } else {
        0
    }
}

/// The offsets of a stack spread downwards, collapsed to fit: when it reaches `c` rows too
/// far, its unspread cards but one (two when nothing is spread) collapse into a slice, and if
/// that is not enough, up to the rest of the rows' worth of spread cards but the top one are
/// drawn as slices.
pub open spec fn spec_offsets(v: StackView) -> Offsets {
    let details = v.details;
    let base = spec_uncollapsed_offsets();
    let c = spec_collapse_len(v, base);
    let reserve: int = if details.spread_len > 0 {
        0
    } else {
        1
    };
    let unspread = spec_bounded_sub(details.visible_len, details.spread_len) as int;
    let cul = if c > 0 {
        if unspread >= reserve + 1 {
            unspread - reserve - 1
        } else {
            0
        }
    } else {
        0
    };
    let rest = if c >= cul {
        c - cul
    } else {
        0
    };
    let spread_but_top = if details.spread_len >= 1 {
        details.spread_len - 1
    } else {
        0
    };
    let csl = if rest > 0 {
        if spread_but_top <= rest {
            spread_but_top
        } else {
            rest
        }
    } else {
        0
    };
    Offsets { collapse_unspread_len: cul as usize, collapse_spread_len: csl as usize, ..base }
}

/// The offsets of a stack spread downwards (see `spec_offsets`).
pub fn offsets(widget: &StackWidget) -> (o: Offsets)
    requires
        spec_collapse_ok(widget.spec_view(), spec_uncollapsed_offsets()),
    ensures
        o == spec_offsets(widget.spec_view()),
{
    let details = &widget.stack.details;
    let mut offsets = Offsets {
        unspread: Vector { x: 0, y: 1 },
        collapsed_spread: Vector { x: 0, y: 1 },
        uncollapsed_spread: Vector { x: 0, y: 2 },
        selected: Vector { x: 1, y: 0 },
        collapse_unspread_len: 0,
        collapse_spread_len: 0,
    };
    let mut collapse: usize = collapse_len(widget, &offsets) as usize;
    if collapse > 0 {
        let reserve: usize = if details.spread_len > 0 {
            0
        } else {
            1
        };
        let unspread_len = details.unspread_len();
        let collapse_unspread_len = if unspread_len >= reserve + 1 {
            unspread_len - reserve - 1
        } else {
            0
        };
        offsets.collapse_unspread_len = collapse_unspread_len;
        collapse = if collapse >= collapse_unspread_len {
            collapse - collapse_unspread_len
        } else {
            0
        };
    }
    if collapse > 0 {
        let spread_but_top = if details.spread_len >= 1 {
            details.spread_len - 1
        } else {
            0
        };
        offsets.collapse_spread_len = if spread_but_top <= collapse {
            spread_but_top
        } else {
            collapse
        };
    }
    offsets
}

/// How a card of a stack spread downwards is drawn: the cards up to the collapsed slice as one
/// face-down slice counting them and the visible card; face down below the first face-up card;
/// as face-up slices while collapsed spread cards; face up otherwise.
pub open spec fn spec_mode(details: StackDetails, offsets: Offsets, index: int) -> CardWidgetMode {
    let cul = offsets.collapse_unspread_len;
    if cul > 0 && index <= spec_bounded_sub(details.len, details.visible_len) + cul {
        CardWidgetMode::SliceFaceDown((cul + 1) as usize)
    } else if index < spec_bounded_sub(details.len, details.face_up_len) {
        CardWidgetMode::FullFaceDown
    } else if offsets.collapse_spread_len > 0 && index < spec_bounded_sub(
        details.len,
        details.spread_len,
    ) + offsets.collapse_spread_len {
        CardWidgetMode::SliceFaceUp
    } else {
        CardWidgetMode::FullFaceUp
    }
}

/// The cards of a stack spread downwards, as they are drawn.
pub fn card_widget_iter<'a>(widget: &'a StackWidget<'a>, offsets: &Offsets) -> (widgets: Vec<
    CardWidget<'a>,
>)
    requires
        spec_all_coords_ok(widget.spec_view(), *offsets),
        offsets.collapse_unspread_len < usize::MAX,
    ensures
        spec_card_widgets(
            widget.spec_view(),
            *offsets,
            widgets@,
            |i: int| spec_mode(widget.stack.details, *offsets, i),
        ),
{
    let details = &widget.stack.details;
    let collapsed_unspread_index = details.visible_index() + offsets.collapse_unspread_len;
    let uncollapsed_spread_index = details.spread_index() + offsets.collapse_spread_len;
    let face_up_index = details.face_up_index();
    let cells = card_iter(widget, offsets);
    let mut widgets: Vec<CardWidget<'a>> = Vec::new();
    let mut k: usize = 0;
    while k < cells.len()
        invariant
            offsets.collapse_unspread_len < usize::MAX,
            *details == widget.stack.details,
            collapsed_unspread_index == spec_bounded_sub(details.len, details.visible_len)
                + offsets.collapse_unspread_len,
            uncollapsed_spread_index == spec_bounded_sub(details.len, details.spread_len)
                + offsets.collapse_spread_len,
            face_up_index == spec_bounded_sub(details.len, details.face_up_len),
            cells@.len() == spec_shown_len(widget.spec_view(), *offsets),
            forall|j: int|
                0 <= j < cells@.len() ==> {
                    let i = spec_first_shown(widget.spec_view(), *offsets) + j;
                    &&& (#[trigger] cells@[j]).0 == i
                    &&& *cells@[j].2 == widget.stack.cards@[i]
                    &&& Some(cells@[j].1) == spec_card_coords(
                        widget.bounds.origin,
                        i,
                        *offsets,
                        widget.stack.details,
                    )
                },
            k <= cells@.len(),
            widgets@.len() == k,
            forall|j: int|
                0 <= j < k ==> {
                    let i = spec_first_shown(widget.spec_view(), *offsets) + j;
                    &&& *(#[trigger] widgets@[j]).card == widget.stack.cards@[i]
                    &&& Some(widgets@[j].origin) == spec_card_coords(
                        widget.bounds.origin,
                        i,
                        *offsets,
                        widget.stack.details,
                    )
                    &&& widgets@[j].mode == spec_mode(widget.stack.details, *offsets, i)
                },
        decreases cells@.len() - k,
    {
        let (index, origin, card) = cells[k];
        let mode = if offsets.collapse_unspread_len > 0 && index <= collapsed_unspread_index {
            CardWidgetMode::SliceFaceDown(offsets.collapse_unspread_len + 1)
        } else if index < face_up_index {
            CardWidgetMode::FullFaceDown
        } else if offsets.collapse_spread_len > 0 && index < uncollapsed_spread_index {
            CardWidgetMode::SliceFaceUp
        } else {
            CardWidgetMode::FullFaceUp
        };
        widgets.push(CardWidget { card, origin, mode });
        k = k + 1;
    }
    widgets
}

/// The selector of a stack spread downwards, if it is selected: two cells left of the cards
/// from the first selected one to the bottom of the last, one more cell left when they are
/// held.
pub open spec fn spec_selector(v: StackView, offsets: Offsets) -> Option<SelectorWidget> {
    let details = v.details;
    match details.selection {
        Some(selection) => {
            let held: int = if selection.held {
                -offsets.selected.x
            } else {
                0
            };
            let start = spec_selector_end(
                v,
                offsets,
                spec_bounded_sub(details.len, selection.len) as int,
                -2 + held,
                0,
            );
            let end = spec_selector_end(
                v,
                offsets,
                spec_bounded_sub(details.len, 1) as int,
                -2 + held,
                4,
            );
            Some(
                SelectorWidget {
                    coords: Point { x: start.0 as u16, y: start.1 as u16 },
                    len: (end.1 - start.1) as u16,
                    orientation: details.orientation,
                },
            )
        },
        None => None,
    }
}

/// Whether the selector of a stack spread downwards can be computed: the positions of its ends
/// can, the moves fit an `i16`, the start is on the terminal and the end is not above it.
pub open spec fn spec_selector_ok(v: StackView, offsets: Offsets) -> bool {
    let details = v.details;
    details.selection matches Some(selection) ==> {
        let first = spec_bounded_sub(details.len, selection.len) as int;
        let last = spec_bounded_sub(details.len, 1) as int;
        let held: int = if selection.held {
            -offsets.selected.x
        } else {
            0
        };
        let start = spec_selector_end(v, offsets, first, -2 + held, 0);
        let end = spec_selector_end(v, offsets, last, -2 + held, 4);
        &&& spec_card_coords_ok(v.bounds.origin, first, offsets, details)
        &&& spec_card_coords_ok(v.bounds.origin, last, offsets, details)
        &&& v.bounds.origin.x <= i16::MAX
        &&& v.bounds.origin.y <= i16::MAX
        &&& spec_i16(-offsets.selected.x)
        &&& spec_i16(start.0 + 2) && spec_i16(start.0 + 2 - held) && spec_i16(start.0)
        &&& spec_i16(start.1)
        &&& spec_i16(end.0 + 2) && spec_i16(end.0 + 2 - held) && spec_i16(end.0)
        &&& spec_i16(end.1 - 4) && spec_i16(end.1)
        &&& start.0 >= 0 && start.1 >= 0
        &&& 0 <= end.1 - start.1 <= u16::MAX
    }
}

/// The selector of a stack spread downwards (see `spec_selector`).
pub fn selector_widget(widget: &StackWidget, offsets: &Offsets) -> (s: Option<SelectorWidget>)
    requires
        spec_selector_ok(widget.spec_view(), *offsets),
    ensures
        s == spec_selector(widget.spec_view(), *offsets),
{
    let details = &widget.stack.details;
    match details.selection {
        Some(selection) => {
            let selection_index = match details.selection_index() {
                Some(i) => i,
                None => 0,
            };
            let end_index = if details.len >= 1 {
                details.len - 1
            } else {
                0
            };
            let held: i32 = if selection.held {
                -(offsets.selected.x as i32)
            } else {
                0
            };
            let origin = widget.bounds.origin;
            let start = match card_coords(origin, selection_index, offsets, details) {
                Some(p) => p,
                None => origin,
            };
            let end = match card_coords(origin, end_index, offsets, details) {
                Some(p) => p,
                None => origin,
            };
            let start_x = start.x as i32 - 2 + held;
            let end_y = end.y as i32 + 4;
            let len = (end_y - start.y as i32) as u16;
            Some(
                SelectorWidget {
                    coords: Point { x: start_x as u16, y: start.y },
                    len,
                    orientation: details.orientation,
                },
            )
        },
        None => None,
    }
}

/// Whether the overflow of the stack drawn before collapsing can be computed (see
/// `spec_collapse_ok`).
pub fn collapse_ok(widget: &StackWidget) -> (b: bool)
    ensures
        b == spec_collapse_ok(widget.spec_view(), spec_uncollapsed_offsets()),
{
    let origin = widget.bounds.origin;
    if origin.y as u32 + widget.bounds.size.height as u32 > 65535 {
        return false;
    }
    let cards = widget.stack.cards;
    if cards.len() == 0 {
        return true;
    }
    let offsets = Offsets {
        unspread: Vector { x: 0, y: 1 },
        collapsed_spread: Vector { x: 0, y: 1 },
        uncollapsed_spread: Vector { x: 0, y: 2 },
        selected: Vector { x: 1, y: 0 },
        collapse_unspread_len: 0,
        collapse_spread_len: 0,
    };
    match card_coords_checked(origin, cards.len() - 1, &offsets, &widget.stack.details) {
        Some(Some(p)) => p.y as u32 + 4 <= 65535,
        Some(None) => true,
        None => false,
    }
}

/// Whether the selector of a stack spread downwards can be computed (see `spec_selector_ok`).
pub fn selector_ok(widget: &StackWidget, offsets: &Offsets) -> (b: bool)
    ensures
        b == spec_selector_ok(widget.spec_view(), *offsets),
{
    let details = &widget.stack.details;
    match details.selection {
        Some(selection) => {
            let origin = widget.bounds.origin;
            let first = bounded_sub(details.len, selection.len);
            let last = bounded_sub(details.len, 1);
            let start_p = match card_coords_checked(origin, first, offsets, details) {
                Some(p) => p,
                None => {
                    return false;
                },
            };
            let end_p = match card_coords_checked(origin, last, offsets, details) {
                Some(p) => p,
                None => {
                    return false;
                },
            };
            if origin.x > 32767 || origin.y > 32767 {
                return false;
            }
            let start = match start_p {
                Some(p) => p,
                None => origin,
            };
            let end = match end_p {
                Some(p) => p,
                None => origin,
            };
            let held: i64 = if selection.held {
                -(offsets.selected.x as i64)
            } else {
                0
            };
            let sx = start.x as i64 - 2 + held;
            let sy = start.y as i64;
            let ex = end.x as i64 - 2 + held;
            let ey = end.y as i64 + 4;
            fits_i16(-(offsets.selected.x as i64)) && fits_i16(sx + 2) && fits_i16(sx + 2 - held)
                && fits_i16(sx) && fits_i16(sy) && fits_i16(ex + 2) && fits_i16(ex + 2 - held)
                && fits_i16(ex) && fits_i16(ey - 4) && fits_i16(ey) && sx >= 0 && sy >= 0 && 0
                <= ey - sy && ey - sy <= 65535
        },
        None => true,
    }
}

} // verus!
