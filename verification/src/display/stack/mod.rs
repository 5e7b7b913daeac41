//! Drawing a stack of cards: its cards where they fall and, when it is selected, a selector.

use vstd::prelude::*;

use super::card::{CardWidget, CardWidgetMode};
use super::coords::Coords;
use super::screen::{spec_horizontal_prints, spec_vertical_prints, KlondikeDisplay};
use crate::game::table::CardStack;
use super::selector::SelectorWidget;
use super::geometry::{Point, Rect, Size};
use crate::model::card::Card;
use crate::model::stack::{Orientation, Stack, StackDetails};
use crate::utils::spec_bounded_sub;
use self::common::{card_coords, card_coords_checked, spec_card_coords, spec_card_coords_ok, Offsets};

pub mod common;
pub mod horizontal;
pub mod selector;
pub mod vertical;

verus! {

/// A stack drawn from the top-left cell of `bounds`.
#[derive(Debug)]
pub struct StackWidget<'a> {
    pub bounds: Rect,
    pub stack: &'a Stack<'a>,
}

/// What the drawing of a stack depends on: where it is drawn, its cards and its layout.
pub struct StackView {
    pub bounds: Rect,
    pub cards: Seq<Card>,
    pub details: StackDetails,
}

impl<'a> StackWidget<'a> {
    /// What the drawing of the stack depends on.
    pub open spec fn spec_view(&self) -> StackView {
        StackView { bounds: self.bounds, cards: self.stack.cards@, details: self.stack.details }
    }
}

/// The first index of the cards that are shown: the first visible one, past the unspread cards
/// collapsed into its slice.
pub open spec fn spec_first_shown(v: StackView, offsets: Offsets) -> int {
    spec_bounded_sub(v.details.len, v.details.visible_len)
        + offsets.collapse_unspread_len
}

/// The number of cards of the stack that are shown.
pub open spec fn spec_shown_len(v: StackView, offsets: Offsets) -> int {
    let first = spec_first_shown(v, offsets);
    let len = v.cards.len() as int;
    if first <= len {
        len - first
    } else {
        0
    }
}

/// Whether the position of every card of the stack can be computed.
pub open spec fn spec_all_coords_ok(v: StackView, offsets: Offsets) -> bool {
    let details = v.details;
    &&& spec_first_shown(v, offsets) <= usize::MAX
    &&& spec_bounded_sub(details.len, details.spread_len) + offsets.collapse_spread_len
        <= usize::MAX
    &&& forall|i: int|
        0 <= i < v.cards.len() ==> #[trigger] spec_card_coords_ok(
            v.bounds.origin,
            i,
            offsets,
            v.details,
        )
}

/// The smallest rectangle holding both `a` and `b`.
pub open spec fn spec_union(a: Rect, b: Rect) -> Rect {
    let left = if a.origin.x <= b.origin.x {
        a.origin.x
    } else {
        b.origin.x
    };
    let top = if a.origin.y <= b.origin.y {
        a.origin.y
    } else {
        b.origin.y
    };
    let right = if a.spec_max_x() >= b.spec_max_x() {
        a.spec_max_x()
    } else {
        b.spec_max_x()
    };
    let bottom = if a.spec_max_y() >= b.spec_max_y() {
        a.spec_max_y()
    } else {
        b.spec_max_y()
    };
    Rect {
        origin: Point { x: left, y: top },
        size: Size { width: (right - left) as u16, height: (bottom - top) as u16 },
    }
}

/// The smallest rectangle holding both `a` and `b`.
pub fn union(a: Rect, b: Rect) -> (r: Rect)
    requires
        a.spec_max_x() <= u16::MAX,
        a.spec_max_y() <= u16::MAX,
        b.spec_max_x() <= u16::MAX,
        b.spec_max_y() <= u16::MAX,
    ensures
        r == spec_union(a, b),
        r.spec_max_x() <= u16::MAX,
        r.spec_max_y() <= u16::MAX,
{
    let left = if a.origin.x <= b.origin.x {
        a.origin.x
    } else {
        b.origin.x
    };
    let top = if a.origin.y <= b.origin.y {
        a.origin.y
    } else {
        b.origin.y
    };
    let right = if a.max_x() >= b.max_x() {
        a.max_x()
    } else {
        b.max_x()
    };
    let bottom = if a.max_y() >= b.max_y() {
        a.max_y()
    } else {
        b.max_y()
    };
    Rect { origin: Point { x: left, y: top }, size: Size { width: right - left, height: bottom - top } }
}

/// Whether `widgets` are the cards of the stack that are shown, from the first shown on, each
/// where `spec_card_coords` puts it and drawn in the mode `mode` gives its index.
pub open spec fn spec_card_widgets(
    v: StackView,
    offsets: Offsets,
    widgets: Seq<CardWidget>,
    mode: spec_fn(int) -> CardWidgetMode,
) -> bool {
    let first = spec_first_shown(v, offsets);
    &&& widgets.len() == spec_shown_len(v, offsets)
    &&& forall|k: int|
        0 <= k < widgets.len() ==> {
            &&& *(#[trigger] widgets[k]).card == v.cards[first + k]
            &&& Some(widgets[k].origin) == spec_card_coords(
                v.bounds.origin,
                first + k,
                offsets,
                v.details,
            )
            &&& widgets[k].mode == mode(first + k)
        }
}

/// A card is shown exactly when its index is at least the first shown.
pub proof fn lemma_shown(v: StackView, offsets: Offsets, i: int)
    requires
        0 <= i,
        spec_card_coords_ok(v.bounds.origin, i, offsets, v.details),
    ensures
        spec_card_coords(v.bounds.origin, i, offsets, v.details) is Some <==> i
            >= spec_first_shown(v, offsets),
{
}

/// The cards of the stack that are shown, from the first shown on: each with its index and where
/// it is drawn.
pub fn card_iter<'a>(widget: &'a StackWidget<'a>, offsets: &Offsets) -> (cells: Vec<
    (usize, Point, &'a Card),
>)
    requires
        spec_all_coords_ok(widget.spec_view(), *offsets),
    ensures
        cells@.len() == spec_shown_len(widget.spec_view(), *offsets),
        forall|k: int|
            0 <= k < cells@.len() ==> {
                let i = spec_first_shown(widget.spec_view(), *offsets) + k;
                &&& (#[trigger] cells@[k]).0 == i
                &&& *cells@[k].2 == widget.stack.cards@[i]
                &&& Some(cells@[k].1) == spec_card_coords(
                    widget.bounds.origin,
                    i,
                    *offsets,
                    widget.stack.details,
                )
            },
{
    let ghost v = widget.spec_view();
    let cards = widget.stack.cards;
    let mut cells: Vec<(usize, Point, &'a Card)> = Vec::new();
    let mut index: usize = 0;
    while index < cards.len()
        invariant
            v == widget.spec_view(),
            spec_all_coords_ok(v, *offsets),
            cards@ == v.cards,
            index <= cards@.len(),
            cells@.len() == if spec_first_shown(v, *offsets) <= index {
                index - spec_first_shown(v, *offsets)
            } else {
                0
            },
            forall|k: int|
                0 <= k < cells@.len() ==> {
                    let i = spec_first_shown(v, *offsets) + k;
                    &&& (#[trigger] cells@[k]).0 == i
                    &&& *cells@[k].2 == v.cards[i]
                    &&& Some(cells@[k].1) == spec_card_coords(v.bounds.origin, i, *offsets, v.details)
                },
        decreases cards@.len() - index,
    {
        assert(spec_card_coords_ok(v.bounds.origin, index as int, *offsets, v.details));
        proof {
            lemma_shown(v, *offsets, index as int);
        }
        match card_coords(widget.bounds.origin, index, offsets, &widget.stack.details) {
            Some(origin) => {
                cells.push((index, origin, &cards[index]));
            },
            None => {},
        }
        index = index + 1;
    }
    cells
}

/// One end of a selector: the position of the card at `index`, or the origin when it is not
/// shown, moved by `(dx, dy)`.
pub open spec fn spec_selector_end(
    v: StackView,
    offsets: Offsets,
    index: int,
    dx: int,
    dy: int,
) -> (int, int) {
    let p = match spec_card_coords(v.bounds.origin, index, offsets, v.details) {
        Some(p) => p,
        None => v.bounds.origin,
    };
    (p.x + dx, p.y + dy)
}

impl StackView {
    /// The offsets of the stack, by the way it is spread.
    pub open spec fn spec_offsets(self) -> Offsets {
        match self.details.orientation {
            Orientation::Horizontal => horizontal::spec_offsets(),
            Orientation::Vertical => vertical::spec_offsets(self),
        }
    }

    /// How the card at `index` is drawn, by the way the stack is spread.
    pub open spec fn spec_mode(self, offsets: Offsets, index: int) -> CardWidgetMode {
        match self.details.orientation {
            Orientation::Horizontal => horizontal::spec_mode(self.details, index),
            Orientation::Vertical => vertical::spec_mode(self.details, offsets, index),
        }
    }

    /// The selector, by the way the stack is spread.
    pub open spec fn spec_selector(self, offsets: Offsets) -> Option<SelectorWidget> {
        match self.details.orientation {
            Orientation::Horizontal => horizontal::spec_selector(self, offsets),
            Orientation::Vertical => vertical::spec_selector(self, offsets),
        }
    }

    /// Whether the selector can be computed, by the way the stack is spread.
    pub open spec fn spec_selector_ok(self, offsets: Offsets) -> bool {
        match self.details.orientation {
            Orientation::Horizontal => horizontal::spec_selector_ok(self, offsets),
            Orientation::Vertical => vertical::spec_selector_ok(self, offsets),
        }
    }

    /// Whether the offsets can be computed.
    pub open spec fn spec_offsets_ok(self) -> bool {
        self.details.orientation is Vertical ==> vertical::spec_collapse_ok(
            self,
            vertical::spec_uncollapsed_offsets(),
        )
    }

    /// Whether the stack can be laid out and drawn: its offsets, the positions of its cards and
    /// its selector can be computed, and every card and the selector fit the terminal's
    /// coordinates.
    pub open spec fn spec_drawable(self) -> bool {
        let offsets = self.spec_offsets();
        &&& self.spec_offsets_ok()
        &&& spec_all_coords_ok(self, offsets)
        &&& offsets.collapse_unspread_len < usize::MAX
        &&& self.spec_selector_ok(offsets)
        &&& self.bounds.origin.x + 1 <= u16::MAX
        &&& self.bounds.origin.y + 1 <= u16::MAX
        &&& forall|i: int|
            0 <= i < self.cards.len() ==> match #[trigger] spec_card_coords(
                self.bounds.origin,
                i,
                offsets,
                self.details,
            ) {
                Some(p) => p.x + 8 < u16::MAX && p.y + 4 < u16::MAX,
                None => true,
            }
        &&& self.spec_selector(offsets) matches Some(selector) ==> {
            &&& selector.coords.x + selector.len + 2 < u16::MAX
            &&& selector.coords.y + selector.len + 2 < u16::MAX
        }
    }

    /// The card widget of the `k`-th card shown.
    pub open spec fn spec_card_widget(self, offsets: Offsets, k: int) -> CardWidget<'static> {
        let i = spec_first_shown(self, offsets) + k;
        CardWidget {
            card: &self.cards[i],
            origin: spec_card_coords(self.bounds.origin, i, offsets, self.details).unwrap(),
            mode: self.spec_mode(offsets, i),
        }
    }

    /// The first `k` cards shown, as drawn.
    pub open spec fn spec_shown_text(self, offsets: Offsets, k: int) -> Seq<char>
        decreases k,
    {
        if k <= 0 {
            Seq::empty()
        } else {
            self.spec_shown_text(offsets, k - 1) + self.spec_card_widget(offsets, k - 1).spec_text()
        }
    }

    /// `start` grown to hold the first `k` cards shown.
    pub open spec fn spec_shown_bounds(self, offsets: Offsets, start: Rect, k: int) -> Rect
        decreases k,
    {
        if k <= 0 {
            start
        } else {
            spec_union(
                self.spec_shown_bounds(offsets, start, k - 1),
                self.spec_card_widget(offsets, k - 1).spec_bounds(),
            )
        }
    }

    /// The stack as drawn: its cards from the first shown to the top, then its selector.
    pub open spec fn spec_text(self) -> Seq<char> {
        let offsets = self.spec_offsets();
        self.spec_shown_text(offsets, spec_shown_len(self, offsets)) + match self.spec_selector(
            offsets,
        ) {
            Some(selector) => selector.spec_text(),
            None => Seq::empty(),
        }
    }

    /// The cells the stack covers: from its origin, every card shown and the selector.
    pub open spec fn spec_bounds(self) -> Rect {
        let offsets = self.spec_offsets();
        let cards = self.spec_shown_bounds(
            offsets,
            Rect { origin: self.bounds.origin, size: Size { width: 0, height: 0 } },
            spec_shown_len(self, offsets),
        );
        match self.spec_selector(offsets) {
            Some(selector) => spec_union(
                cards,
                match selector.orientation {
                    Orientation::Horizontal => Rect {
                        origin: selector.coords,
                        size: Size { width: selector.len, height: 1 },
                    },
                    Orientation::Vertical => Rect {
                        origin: selector.coords,
                        size: Size { width: 2, height: selector.len },
                    },
                },
            ),
            None => cards,
        }
    }
}

impl<'a> StackWidget<'a> {
    /// The offsets of the stack.
    pub fn offsets(&self) -> (o: Offsets)
        requires
            self.spec_view().spec_offsets_ok(),
        ensures
            o == self.spec_view().spec_offsets(),
    {
        match self.stack.details.orientation {
            Orientation::Horizontal => horizontal::offsets(self),
            Orientation::Vertical => vertical::offsets(self),
        }
    }

    /// The cards of the stack that are shown, as they are drawn.
    pub fn card_widget_iter(&'a self, offsets: &Offsets) -> (widgets: Vec<CardWidget<'a>>)
        requires
            spec_all_coords_ok(self.spec_view(), *offsets),
            offsets.collapse_unspread_len < usize::MAX,
        ensures
            spec_card_widgets(
                self.spec_view(),
                *offsets,
                widgets@,
                |i: int| self.spec_view().spec_mode(*offsets, i),
            ),
    {
        match self.stack.details.orientation {
            Orientation::Horizontal => horizontal::card_widget_iter(self, offsets),
            Orientation::Vertical => vertical::card_widget_iter(self, offsets),
        }
    }

    /// The selector of the stack, if it is selected.
    pub fn selector_widget(&self, offsets: &Offsets) -> (s: Option<SelectorWidget>)
        requires
            self.spec_view().spec_selector_ok(*offsets),
        ensures
            s == self.spec_view().spec_selector(*offsets),
    {
        match self.stack.details.orientation {
            Orientation::Horizontal => horizontal::selector_widget(self, offsets),
            Orientation::Vertical => vertical::selector_widget(self, offsets),
        }
    }

    /// Whether the stack can be drawn where it is (see `StackView::spec_drawable`).
    pub fn is_drawable(&self) -> (b: bool)
        ensures
            b == self.spec_view().spec_drawable(),
    {
        let ghost v = self.spec_view();
        let offsets_ok = match self.stack.details.orientation {
            Orientation::Horizontal => true,
            Orientation::Vertical => vertical::collapse_ok(self),
        };
        if !offsets_ok {
            return false;
        }
        let offsets = self.offsets();
        let details = &self.stack.details;
        let origin = self.bounds.origin;
        if details.visible_index() > usize::MAX - offsets.collapse_unspread_len {
            return false;
        }
        if details.spread_index() > usize::MAX - offsets.collapse_spread_len {
            return false;
        }
        if offsets.collapse_unspread_len == usize::MAX {
            return false;
        }
        let cards = self.stack.cards;
        let mut i: usize = 0;
        while i < cards.len()
            invariant
                v == self.spec_view(),
                offsets == v.spec_offsets(),
                cards@ == v.cards,
                origin == v.bounds.origin,
                *details == v.details,
                i <= cards@.len(),
                forall|j: int|
                    0 <= j < i ==> #[trigger] spec_card_coords_ok(
                        v.bounds.origin,
                        j,
                        offsets,
                        v.details,
                    ) && match spec_card_coords(v.bounds.origin, j, offsets, v.details) {
                        Some(p) => p.x + 8 < u16::MAX && p.y + 4 < u16::MAX,
                        None => true,
                    },
            decreases cards@.len() - i,
        {
            let checked = card_coords_checked(origin, i, &offsets, details);
            match checked {
                Some(Some(p)) => {
                    if !(p.x < 65527 && p.y < 65531) {
                        return false;
                    }
                },
                Some(None) => {},
                None => {
                    assert(!spec_card_coords_ok(v.bounds.origin, i as int, offsets, v.details));
                    assert(!spec_all_coords_ok(v, offsets));
                    return false;
                },
            }
            proof {
                assert forall|j: int| 0 <= j < i + 1 implies #[trigger] spec_card_coords_ok(
                    v.bounds.origin,
                    j,
                    offsets,
                    v.details,
                ) && match spec_card_coords(v.bounds.origin, j, offsets, v.details) {
                    Some(p) => p.x + 8 < u16::MAX && p.y + 4 < u16::MAX,
                    None => true,
                } by {
                    if j == i {
                        assert(checked is Some);
                    }
                }
            }
            i = i + 1;
        }
        assert(spec_all_coords_ok(v, offsets));
        assert forall|j: int| 0 <= j < v.cards.len() implies match #[trigger] spec_card_coords(
            v.bounds.origin,
            j,
            offsets,
            v.details,
        ) {
            Some(p) => p.x + 8 < u16::MAX && p.y + 4 < u16::MAX,
            None => true,
        } by {
            assert(spec_card_coords_ok(v.bounds.origin, j, offsets, v.details));
        }
        let selector_ok = match details.orientation {
            Orientation::Horizontal => horizontal::selector_ok(self, &offsets),
            Orientation::Vertical => vertical::selector_ok(self, &offsets),
        };
        if !selector_ok {
            return false;
        }
        if origin.x == 65535 || origin.y == 65535 {
            return false;
        }
        match self.selector_widget(&offsets) {
            Some(selector) => (selector.coords.x as u32 + selector.len as u32 + 2 < 65535)
                && (selector.coords.y as u32 + selector.len as u32 + 2 < 65535),
            None => true,
        }
    }

    /// The cells the stack covers (see `StackView::spec_bounds`).
    pub fn bounds(&self) -> (r: Rect)
        requires
            self.spec_view().spec_drawable(),
        ensures
            r == self.spec_view().spec_bounds(),
    {
        let ghost v = self.spec_view();
        let offsets = self.offsets();
        let widgets = self.card_widget_iter(&offsets);
        let start = Rect::new(self.bounds.origin, Size { width: 0, height: 0 });
        let mut bounds = start;
        let mut k: usize = 0;
        while k < widgets.len()
            invariant
                v == self.spec_view(),
                offsets == v.spec_offsets(),
                v.spec_drawable(),
                spec_card_widgets(v, offsets, widgets@, |i: int| v.spec_mode(offsets, i)),
                k <= widgets@.len(),
                bounds == v.spec_shown_bounds(offsets, start, k as int),
                bounds.spec_max_x() <= u16::MAX,
                bounds.spec_max_y() <= u16::MAX,
            decreases widgets@.len() - k,
        {
            let w = &widgets[k];
            proof {
                let i = spec_first_shown(v, offsets) + k;
                assert(spec_card_coords(v.bounds.origin, i, offsets, v.details) is Some);
                assert(w.origin == v.spec_card_widget(offsets, k as int).origin);
            }
            let card_bounds = w.bounds();
            bounds = union(bounds, card_bounds);
            k = k + 1;
        }
        match self.selector_widget(&offsets) {
            Some(selector) => {
                let selector_bounds = selector.bounds();
                union(bounds, selector_bounds)
            },
            None => bounds,
        }
    }

    /// The stack as drawn (see `StackView::spec_text`).
    pub fn fmt(&self) -> (s: String)
        requires
            self.spec_view().spec_drawable(),
        ensures
            s@ == self.spec_view().spec_text(),
    {
        let ghost v = self.spec_view();
        let offsets = self.offsets();
        let widgets = self.card_widget_iter(&offsets);
        let mut s = String::new();
        let mut k: usize = 0;
        while k < widgets.len()
            invariant
                v == self.spec_view(),
                offsets == v.spec_offsets(),
                v.spec_drawable(),
                spec_card_widgets(v, offsets, widgets@, |i: int| v.spec_mode(offsets, i)),
                k <= widgets@.len(),
                s@ == v.spec_shown_text(offsets, k as int),
            decreases widgets@.len() - k,
        {
            let w = &widgets[k];
            proof {
                let i = spec_first_shown(v, offsets) + k;
                assert(spec_card_coords(v.bounds.origin, i, offsets, v.details) is Some);
                assert(w.spec_text() == v.spec_card_widget(offsets, k as int).spec_text());
            }
            let text = w.fmt();
            s.append(text.as_str());
            k = k + 1;
        }
        match self.selector_widget(&offsets) {
            Some(selector) => {
                let text = selector.fmt();
                s.append(text.as_str());
            },
            None => {},
        }
        s
    }
}

/// Draws a stack spread to the right on `display` (see `KlondikeDisplay::draw_horizontal_card_stack`).
pub fn draw_horizontal_card_stack(display: &mut KlondikeDisplay, coords: Coords, stack: &CardStack)
    requires
        coords.x + 4 * stack.fanned@.len() + 9 <= i32::MAX,
        coords.y + 3 <= i32::MAX,
    ensures
        final(display).spec_pending() == old(display).spec_pending() + spec_horizontal_prints(
            coords.x as int,
            coords.y as int,
            stack.pile@,
            stack.fanned@,
        ),
{
    display.draw_horizontal_card_stack(coords, stack);
}

/// Draws a stack spread downwards on `display` (see `KlondikeDisplay::draw_vertical_card_stack`).
pub fn draw_vertical_card_stack(display: &mut KlondikeDisplay, coords: Coords, stack: &CardStack)
    requires
        coords.x + 8 <= i32::MAX,
        coords.y + 2 * stack.fanned@.len() + 3 <= i32::MAX,
    ensures
        final(display).spec_pending() == old(display).spec_pending() + spec_vertical_prints(
            coords.x as int,
            coords.y as int,
            stack.pile@,
            stack.fanned@,
        ),
{
    display.draw_vertical_card_stack(coords, stack);
}

} // verus!
