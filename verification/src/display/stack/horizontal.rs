//! Stacks spread to the right: the talon.

use vstd::prelude::*;

use super::super::card::{CardWidget, CardWidgetMode};
use super::super::geometry::Point;
use super::super::selector::SelectorWidget;
use super::common::{
    card_coords, card_coords_checked, fits_i16, spec_card_coords, spec_card_coords_ok, spec_i16,
    Offsets, Vector,
};
use super::card_iter;
use super::{
    spec_all_coords_ok, spec_card_widgets, spec_first_shown, spec_selector_end,
    spec_shown_len, StackView, StackWidget,
};
use crate::model::stack::StackDetails;
use crate::utils::{bounded_sub, spec_bounded_sub};

verus! {

/// The offsets of a stack spread to the right: one cell between unspread cards, four between
/// spread ones, and held cards shifted one cell right; nothing collapsed.
pub open spec fn spec_offsets() -> Offsets {
    Offsets {
        unspread: Vector { x: 1, y: 0 },
        collapsed_spread: Vector { x: 4, y: 0 },
        uncollapsed_spread: Vector { x: 4, y: 0 },
        selected: Vector { x: 1, y: 0 },
        collapse_unspread_len: 0,
        collapse_spread_len: 0,
    }
}

/// The offsets of a stack spread to the right.
pub fn offsets(widget: &StackWidget) -> (o: Offsets)
    ensures
        o == spec_offsets(),
{
    Offsets {
        unspread: Vector { x: 1, y: 0 },
        collapsed_spread: Vector { x: 4, y: 0 },
        uncollapsed_spread: Vector { x: 4, y: 0 },
        selected: Vector { x: 1, y: 0 },
        collapse_unspread_len: 0,
        collapse_spread_len: 0,
    }
}

/// How a card of a stack spread to the right is drawn: face down below the first face-up card,
/// face up from it on.
pub open spec fn spec_mode(details: StackDetails, index: int) -> CardWidgetMode {
    if index < spec_bounded_sub(details.len, details.face_up_len) {
        CardWidgetMode::FullFaceDown
    } else {
        CardWidgetMode::FullFaceUp
    }
}

/// The cards of a stack spread to the right, as they are drawn.
pub fn card_widget_iter<'a>(widget: &'a StackWidget<'a>, offsets: &Offsets) -> (widgets: Vec<
    CardWidget<'a>,
>)
    requires
        spec_all_coords_ok(widget.spec_view(), *offsets),
    ensures
        spec_card_widgets(widget.spec_view(), *offsets, widgets@, |i: int| spec_mode(widget.stack.details, i)),
{
    let details = &widget.stack.details;
    let face_up_index = details.face_up_index();
    let cells = card_iter(widget, offsets);
    let mut widgets: Vec<CardWidget<'a>> = Vec::new();
    let mut k: usize = 0;
    while k < cells.len()
        invariant
            *details == widget.stack.details,
            face_up_index == spec_bounded_sub(details.len, details.face_up_len),
            cells@.len() == spec_shown_len(widget.spec_view(), *offsets),
            forall|j: int|
                0 <= j < cells@.len() ==> {
                    let i = spec_first_shown(widget.spec_view(), *offsets) + j;
                    &&& (#[trigger] cells@[j]).0 == i
                    &&& *cells@[j].2 == widget.stack.cards@[i]
                    &&& Some(cells@[j].1) == spec_card_coords(
                        widget.bounds.origin,
                        i,
                        *offsets,
                        widget.stack.details,
                    )
                },
            k <= cells@.len(),
            widgets@.len() == k,
            forall|j: int|
                0 <= j < k ==> {
                    let i = spec_first_shown(widget.spec_view(), *offsets) + j;
                    &&& *(#[trigger] widgets@[j]).card == widget.stack.cards@[i]
                    &&& Some(widgets@[j].origin) == spec_card_coords(
                        widget.bounds.origin,
                        i,
                        *offsets,
                        widget.stack.details,
                    )
                    &&& widgets@[j].mode == spec_mode(widget.stack.details, i)
                },
        decreases cells@.len() - k,
    {
        let (index, origin, card) = cells[k];
        let mode = if index < face_up_index {
            CardWidgetMode::FullFaceDown
        } else {
            CardWidgetMode::FullFaceUp
        };
        widgets.push(CardWidget { card, origin, mode });
        k = k + 1;
    }
    widgets
}

/// The selector of a stack spread to the right, if it is selected: under the cards from the
/// first selected one to the last.
pub open spec fn spec_selector(v: StackView, offsets: Offsets) -> Option<SelectorWidget> {
    let details = v.details;
    match details.selection {
        Some(selection) => {
            let start = spec_selector_end(
                v,
                offsets,
                spec_bounded_sub(details.len, selection.len) as int,
                0,
                4,
            );
            let end = spec_selector_end(
                v,
                offsets,
                spec_bounded_sub(details.len, 1) as int,
                8,
                4,
            );
            Some(
                SelectorWidget {
                    coords: Point { x: start.0 as u16, y: start.1 as u16 },
                    len: (end.0 - start.0) as u16,
                    orientation: details.orientation,
                },
            )
        },
        None => None,
    }
}

/// Whether the selector of a stack spread to the right can be computed: the positions of its
/// ends can, they fit an `i16`, and the end is not left of the start.
pub open spec fn spec_selector_ok(v: StackView, offsets: Offsets) -> bool {
    let details = v.details;
    details.selection matches Some(selection) ==> {
        let first = spec_bounded_sub(details.len, selection.len) as int;
        let last = spec_bounded_sub(details.len, 1) as int;
        let start = spec_selector_end(v, offsets, first, 0, 4);
        let end = spec_selector_end(v, offsets, last, 8, 4);
        &&& spec_card_coords_ok(v.bounds.origin, first, offsets, details)
        &&& spec_card_coords_ok(v.bounds.origin, last, offsets, details)
        &&& v.bounds.origin.x <= i16::MAX
        &&& v.bounds.origin.y <= i16::MAX
        &&& spec_i16(start.0 - 0) && spec_i16(start.1 - 4) && spec_i16(start.0) && spec_i16(start.1)
        &&& spec_i16(end.0 - 8) && spec_i16(end.1 - 4) && spec_i16(end.0) && spec_i16(end.1)
        &&& 0 <= end.0 - start.0 <= u16::MAX
        &&& start.0 >= 0 && start.1 >= 0
    }
}

/// The selector of a stack spread to the right (see `spec_selector`).
pub fn selector_widget(widget: &StackWidget, offsets: &Offsets) -> (s: Option<SelectorWidget>)
    requires
        spec_selector_ok(widget.spec_view(), *offsets),
    ensures
        s == spec_selector(widget.spec_view(), *offsets),
{
    let details = &widget.stack.details;
    match details.selection {
        Some(_) => {
            let selection_index = match details.selection_index() {
                Some(i) => i,
                None => 0,
            };
            let end_index = if details.len >= 1 {
                details.len - 1
            } else {
                0
            };
            let origin = widget.bounds.origin;
            let start = match card_coords(origin, selection_index, offsets, details) {
                Some(p) => p,
                None => origin,
            };
            let end = match card_coords(origin, end_index, offsets, details) {
                Some(p) => p,
                None => origin,
            };
            let start_y = start.y as i32 + 4;
            let end_x = end.x as i32 + 8;
            let len = (end_x - start.x as i32) as u16;
            Some(
                SelectorWidget {
                    coords: Point { x: start.x, y: start_y as u16 },
                    len,
                    orientation: details.orientation,
                },
            )
        },
        None => None,
    }
}

/// Whether the selector of a stack spread to the right can be computed (see
/// `spec_selector_ok`).
pub fn selector_ok(widget: &StackWidget, offsets: &Offsets) -> (b: bool)
    ensures
        b == spec_selector_ok(widget.spec_view(), *offsets),
{
    let details = &widget.stack.details;
    match details.selection {
        Some(selection) => {
            let origin = widget.bounds.origin;
            let first = bounded_sub(details.len, selection.len);
            let last = bounded_sub(details.len, 1);
            let start_p = match card_coords_checked(origin, first, offsets, details) {
                Some(p) => p,
                None => {
                    return false;
                },
            };
            let end_p = match card_coords_checked(origin, last, offsets, details) {
                Some(p) => p,
                None => {
                    return false;
                },
            };
            if origin.x > 32767 || origin.y > 32767 {
                return false;
            }
            let start = match start_p {
                Some(p) => p,
                None => origin,
            };
            let end = match end_p {
                Some(p) => p,
                None => origin,
            };
            let sx = start.x as i64;
            let sy = start.y as i64 + 4;
            let ex = end.x as i64 + 8;
            let ey = end.y as i64 + 4;
            fits_i16(sx) && fits_i16(sy - 4) && fits_i16(sx) && fits_i16(sy) && fits_i16(ex - 8)
                && fits_i16(ey - 4) && fits_i16(ex) && fits_i16(ey) && 0 <= ex - sx && ex - sx
                <= 65535 && sx >= 0 && sy >= 0
        },
        None => true,
    }
}

} // verus!
