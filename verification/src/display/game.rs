//! Drawing a whole game: each area of the table as a stack, or the help or win screen, redrawing
//! only what changed since the last time.

use vstd::prelude::*;

use super::blank::BlankWidget;
use super::geometry::{point2, Point, Rect, Size};
use super::help::HelpWidget;
use super::escape::{clear_all_code, spec_clear_all_code};
use super::stack::{StackView, StackWidget};
use super::stack::common::Offsets;
use super::win::WinWidget;
use super::DisplayState;
use crate::model::area::AreaId;
use crate::model::card::Suit;
use crate::model::game::Game;

verus! {

/// The top-left cell of an area: the stock and the talon at the top left, the foundations from
/// column 35, the tableaux in the row below; areas of a kind are 11 columns apart.
pub open spec fn spec_coords_for_area(area_id: AreaId) -> Point {
    match area_id {
        AreaId::Stock => Point { x: 2, y: 0 },
        AreaId::Talon => Point { x: 13, y: 0 },
        AreaId::Foundation(suit) => Point { x: (35 + 11 * suit.spec_index()) as u16, y: 0 },
        AreaId::Tableaux(index) => Point { x: (2 + 11 * index) as u16, y: 5 },
    }
}

/// The top-left cell of an area (see `spec_coords_for_area`).
pub fn coords_for_area(area_id: AreaId) -> (p: Point)
    ensures
        p == spec_coords_for_area(area_id),
{
    match area_id {
        AreaId::Stock => point2(2, 0),
        AreaId::Talon => point2(13, 0),
        AreaId::Foundation(suit) => point2(35 + 11 * suit.index() as u16, 0),
        AreaId::Tableaux(index) => point2(2 + 11 * index as u16, 5),
    }
}

/// The right edge of an area (its last column): one column left of the next area of the row;
/// the last foundation reaches the right of the display.
pub open spec fn spec_right_of_area(area_id: AreaId, widget_bounds: Rect) -> int {
    match area_id {
        AreaId::Stock => spec_coords_for_area(AreaId::Talon).x - 1,
        AreaId::Talon => spec_coords_for_area(AreaId::Foundation(Suit::Spades)).x - 1,
        AreaId::Foundation(suit) => if suit.spec_index() + 1 < 4 {
            35 + 11 * (suit.spec_index() + 1) - 1
        } else {
            widget_bounds.spec_max_x()
        },
        AreaId::Tableaux(index) => 2 + 11 * (index + 1) - 1,
    }
}

/// The bottom edge of an area: the row above the tableaux for the top row, the bottom of the
/// display for the tableaux.
pub open spec fn spec_bottom_of_area(area_id: AreaId, widget_bounds: Rect) -> int {
    match area_id {
        AreaId::Tableaux(_) => widget_bounds.spec_max_y(),
        _ => spec_coords_for_area(AreaId::Tableaux(0)).y - 1,
    }
}

/// The rectangle an area may draw in: from its top-left cell to its right and bottom edges.
pub open spec fn spec_bounds_for_area(area_id: AreaId, widget_bounds: Rect) -> Rect {
    let top_left = spec_coords_for_area(area_id);
    Rect {
        origin: top_left,
        size: Size {
            width: (spec_right_of_area(area_id, widget_bounds) - top_left.x) as u16,
            height: (spec_bottom_of_area(area_id, widget_bounds) - top_left.y) as u16,
        },
    }
}

/// Whether the rectangle of an area can be computed: the next tableaux has an index, the
/// display's edges fit and lie past the area's top-left cell.
pub open spec fn spec_bounds_for_area_ok(area_id: AreaId, widget_bounds: Rect) -> bool {
    &&& widget_bounds.spec_max_x() <= u16::MAX
    &&& widget_bounds.spec_max_y() <= u16::MAX
    &&& area_id matches AreaId::Tableaux(index) ==> index < 255 && widget_bounds.spec_max_y() >= 5
    &&& area_id matches AreaId::Foundation(suit) ==> (suit.spec_index() == 3
        ==> widget_bounds.spec_max_x() >= 68)
}

/// Whether the rectangle of an area can be computed (see `spec_bounds_for_area_ok`).
pub fn bounds_for_area_ok(area_id: AreaId, widget_bounds: Rect) -> (b: bool)
    ensures
        b == spec_bounds_for_area_ok(area_id, widget_bounds),
{
    let max_x = widget_bounds.origin.x as u32 + widget_bounds.size.width as u32;
    let max_y = widget_bounds.origin.y as u32 + widget_bounds.size.height as u32;
    if max_x > 65535 || max_y > 65535 {
        return false;
    }
    match area_id {
        AreaId::Tableaux(index) => index < 255 && max_y >= 5,
        AreaId::Foundation(suit) => suit.index() != 3 || max_x >= 68,
        _ => true,
    }
}

/// The rectangle an area may draw in (see `spec_bounds_for_area`).
pub fn bounds_for_area(area_id: AreaId, widget_bounds: Rect) -> (r: Rect)
    requires
        spec_bounds_for_area_ok(area_id, widget_bounds),
    ensures
        r == spec_bounds_for_area(area_id, widget_bounds),
{
    let top_left = coords_for_area(area_id);
    let bottom_of_top_row = coords_for_area(AreaId::Tableaux(0)).y - 1;
    let (right, bottom) = match area_id {
        AreaId::Stock => (coords_for_area(AreaId::Talon).x - 1, bottom_of_top_row),
        AreaId::Talon => (coords_for_area(AreaId::Foundation(Suit::Spades)).x - 1, bottom_of_top_row),
        AreaId::Foundation(suit) => {
            let right = match Suit::from_index(suit.index() + 1) {
                Some(next_suit) => coords_for_area(AreaId::Foundation(next_suit)).x - 1,
                None => widget_bounds.max_x(),
            };
            (right, bottom_of_top_row)
        },
        AreaId::Tableaux(index) => (
            coords_for_area(AreaId::Tableaux(index + 1)).x - 1,
            widget_bounds.max_y(),
        ),
    };
    Rect {
        origin: top_left,
        size: Size { width: right - top_left.x, height: bottom - top_left.y },
    }
}

/// What the game widget remembers between drawings: where each area was drawn, and the
/// display state and bounds of the last drawing.
#[derive(Debug, Default)]
pub struct GameWidgetStateValue {
    pub bounds_cache: Vec<(AreaId, Rect)>,
    pub prev_display_state: Option<DisplayState>,
    pub prev_bounds: Option<Rect>,
}

/// The state the game widget keeps between drawings.
#[derive(Debug, Default)]
pub struct GameWidgetState {
    pub cell: GameWidgetStateValue,
}

/// Draws a game in `bounds`; `area_ids` are the areas that changed.
#[derive(Debug)]
pub struct GameWidget<'a> {
    pub area_ids: &'a [AreaId],
    pub bounds: Rect,
    pub game: &'a Game,
    pub display_state: DisplayState,
}

impl<'a> GameWidget<'a> {
    /// Every state but the win message asks for the whole display to be drawn again when it
    /// starts.
    pub open spec fn spec_state_requires_refresh(&self) -> bool {
        !(self.display_state is WinMessageOpen)
    }

    /// The whole display must be drawn again when its bounds changed, or when the display state
    /// changed to one that asks for it; always on the first drawing.
    pub open spec fn spec_full_refresh_required(&self, state: GameWidgetStateValue) -> bool {
        let bounds_changed = match state.prev_bounds {
            Some(prev) => prev != self.bounds,
            None => true,
        };
        let display_state_changed = match state.prev_display_state {
            Some(prev) => prev != self.display_state && self.spec_state_requires_refresh(),
            None => true,
        };
        bounds_changed || display_state_changed
    }

    /// Whether the display state asks for the whole display to be drawn again.
    pub fn state_requires_refresh(&self) -> (b: bool)
        ensures
            b == self.spec_state_requires_refresh(),
    {
        match self.display_state {
            DisplayState::WinMessageOpen => false,
            _ => true,
        }
    }

    /// Whether the whole display must be drawn again (see `spec_full_refresh_required`).
    pub fn is_full_refresh_required(&self, state: &GameWidgetStateValue) -> (b: bool)
        ensures
            b == self.spec_full_refresh_required(*state),
    {
        let bounds_changed = match state.prev_bounds {
            Some(prev) => prev != self.bounds,
            None => true,
        };
        let display_state_changed = match state.prev_display_state {
            Some(prev) => prev != self.display_state && self.state_requires_refresh(),
            None => true,
        };
        bounds_changed || display_state_changed
    }
}

/// The ids of `ids`, in a vector of their own.
fn copy_ids(ids: &[AreaId]) -> (copy: Vec<AreaId>)
    ensures
        copy@ == ids@,
{
    let mut copy: Vec<AreaId> = Vec::new();
    let mut k: usize = 0;
    while k < ids.len()
        invariant
            k <= ids@.len(),
            copy@ == ids@.take(k as int),
        decreases ids@.len() - k,
    {
        copy.push(ids[k]);
        k = k + 1;
        assert(copy@ =~= ids@.take(k as int));
    }
    assert(ids@.take(ids@.len() as int) =~= ids@);
    copy
}

/// The position in `cache` of the entry for `id`, the last one if there are several.
pub open spec fn spec_cache_index(cache: Seq<(AreaId, Rect)>, id: AreaId) -> Option<int>
    decreases cache.len(),
{
    if cache.len() == 0 {
        None
    } else if cache.last().0 == id {
        Some(cache.len() - 1)
    } else {
        spec_cache_index(cache.drop_last(), id)
    }
}

/// The entry found for `id` is in `cache` and is for `id`.
proof fn lemma_cache_index(cache: Seq<(AreaId, Rect)>, id: AreaId)
    ensures
        spec_cache_index(cache, id) matches Some(i) ==> 0 <= i < cache.len() && cache[i].0 == id,
    decreases cache.len(),
{
    if cache.len() > 0 && cache.last().0 != id {
        lemma_cache_index(cache.drop_last(), id);
    }
}

/// `cache` with `id` remembered at `bounds`: its entry replaced, or a new one added at the end.
pub open spec fn spec_cache_insert(cache: Seq<(AreaId, Rect)>, id: AreaId, bounds: Rect) -> Seq<
    (AreaId, Rect),
> {
    match spec_cache_index(cache, id) {
        Some(i) => cache.update(i, (id, bounds)),
        None => cache.push((id, bounds)),
    }
}

/// The position in `cache` of the entry for `id`.
fn cache_index(cache: &Vec<(AreaId, Rect)>, id: AreaId) -> (index: Option<usize>)
    ensures
        index matches Some(i) ==> spec_cache_index(cache@, id) == Some(i as int),
        index is None ==> spec_cache_index(cache@, id) is None,
{
    let mut k: usize = cache.len();
    assert(cache@.take(cache@.len() as int) =~= cache@);
    while k > 0
        invariant
            k <= cache@.len(),
            spec_cache_index(cache@, id) == spec_cache_index(cache@.take(k as int), id),
        decreases k,
    {
        let entry = cache[k - 1];
        assert(cache@.take(k as int).drop_last() =~= cache@.take(k - 1));
        if entry.0 == id {
            return Some(k - 1);
        }
        k = k - 1;
    }
    None
}

/// Whether every rectangle remembered in `cache` can be blanked.
pub open spec fn spec_cache_ok(cache: Seq<(AreaId, Rect)>) -> bool {
    forall|i: int|
        0 <= i < cache.len() ==> (#[trigger] cache[i]).1.origin.x < u16::MAX && cache[i].1.origin.y
            < u16::MAX
}

impl GameWidgetStateValue {
    /// Every remembered rectangle can be blanked.
    pub open spec fn wf(&self) -> bool {
        spec_cache_ok(self.bounds_cache@)
    }
}

/// The rectangle grown from the origin of a stack to hold its cards starts no further right or
/// down than that origin.
proof fn lemma_shown_bounds_origin(v: StackView, offsets: Offsets, start: Rect, k: int)
    ensures
        v.spec_shown_bounds(offsets, start, k).origin.x <= start.origin.x,
        v.spec_shown_bounds(offsets, start, k).origin.y <= start.origin.y,
    decreases k,
{
    if k > 0 {
        lemma_shown_bounds_origin(v, offsets, start, k - 1);
    }
}

impl<'a> GameWidget<'a> {
    /// What the drawing of area `id` depends on: the rectangle it may draw in, its cards and
    /// its layout.
    pub open spec fn spec_area_view(&self, id: AreaId) -> StackView {
        let area = self.game.areas.areas@[self.game.areas.spec_index_of(id)];
        StackView {
            bounds: spec_bounds_for_area(id, self.bounds),
            cards: area.spec_cards(),
            details: area.spec_stack_details(),
        }
    }

    /// Whether area `id` can be drawn: its rectangle can be computed and, when the game has
    /// the area, its stack can be drawn there.
    pub open spec fn spec_area_drawable(&self, id: AreaId) -> bool {
        &&& spec_bounds_for_area_ok(id, self.bounds)
        &&& self.game.areas.spec_contains(id) ==> self.spec_area_view(id).spec_drawable()
    }

    /// Area `id` as drawn over `cache`: the rectangle remembered for it blanked, then its
    /// stack, if the game has it.
    pub open spec fn spec_area_text(&self, id: AreaId, cache: Seq<(AreaId, Rect)>) -> Seq<char> {
        let blank = match spec_cache_index(cache, id) {
            Some(i) => (BlankWidget { bounds: cache[i].1 }).spec_text(),
            None => Seq::empty(),
        };
        blank + if self.game.areas.spec_contains(id) {
            self.spec_area_view(id).spec_text()
        } else {
            Seq::empty()
        }
    }

    /// `cache` after drawing area `id`: the area remembered where its stack was drawn.
    pub open spec fn spec_area_cache(&self, id: AreaId, cache: Seq<(AreaId, Rect)>) -> Seq<
        (AreaId, Rect),
    > {
        if self.game.areas.spec_contains(id) {
            spec_cache_insert(cache, id, self.spec_area_view(id).spec_bounds())
        } else {
            cache
        }
    }

    /// The areas `ids` drawn one after the other over `cache`: the text and the cache after.
    pub open spec fn spec_areas(&self, ids: Seq<AreaId>, cache: Seq<(AreaId, Rect)>) -> (Seq<char>, Seq<
        (AreaId, Rect),
    >)
        decreases ids.len(),
    {
        if ids.len() == 0 {
            (Seq::empty(), cache)
        } else {
            let (text, before) = self.spec_areas(ids.drop_last(), cache);
            (
                text + self.spec_area_text(ids.last(), before),
                self.spec_area_cache(ids.last(), before),
            )
        }
    }

    /// The rectangle remembered for `id` blanked, if there is one.
    fn blank_cached(cache: &Vec<(AreaId, Rect)>, id: AreaId) -> (s: String)
        requires
            spec_cache_ok(cache@),
        ensures
            s@ == match spec_cache_index(cache@, id) {
                Some(i) => (BlankWidget { bounds: cache@[i].1 }).spec_text(),
                None => Seq::empty(),
            },
    {
        proof {
            lemma_cache_index(cache@, id);
        }
        match cache_index(cache, id) {
            Some(i) => {
                let blank = BlankWidget { bounds: cache[i].1 };
                blank.fmt()
            },
            None => String::new(),
        }
    }

    /// Remembers `id` at `bounds`.
    fn remember(cache: &mut Vec<(AreaId, Rect)>, id: AreaId, bounds: Rect)
        requires
            spec_cache_ok(old(cache)@),
            bounds.origin.x < u16::MAX,
            bounds.origin.y < u16::MAX,
        ensures
            spec_cache_ok(final(cache)@),
            final(cache)@ == spec_cache_insert(old(cache)@, id, bounds),
    {
        proof {
            lemma_cache_index(cache@, id);
        }
        match cache_index(cache, id) {
            Some(i) => {
                cache.set(i, (id, bounds));
            },
            None => {
                cache.push((id, bounds));
            },
        }
    }

    /// Draws area `id` over the remembered rectangles and remembers where it was drawn.
    fn write_area(&self, area_id: AreaId, state: &mut GameWidgetStateValue) -> (s: String)
        requires
            self.game.wf(),
            old(state).wf(),
            self.spec_area_drawable(area_id),
        ensures
            final(state).wf(),
            final(state).prev_bounds == old(state).prev_bounds,
            final(state).prev_display_state == old(state).prev_display_state,
            s@ == self.spec_area_text(area_id, old(state).bounds_cache@),
            final(state).bounds_cache@ == self.spec_area_cache(area_id, old(state).bounds_cache@),
    {
        let bounds = bounds_for_area(area_id, self.bounds);
        let mut s = GameWidget::blank_cached(&state.bounds_cache, area_id);
        match self.game.stack(area_id) {
            Some(stack) => {
                let widget = StackWidget { bounds, stack: &stack };
                assert(widget.spec_view() == self.spec_area_view(area_id));
                let new_bounds = widget.bounds();
                let text = widget.fmt();
                s.append(text.as_str());
                proof {
                    let v = widget.spec_view();
                    let offsets = v.spec_offsets();
                    let start = Rect {
                        origin: v.bounds.origin,
                        size: Size { width: 0, height: 0 },
                    };
                    lemma_shown_bounds_origin(
                        v,
                        offsets,
                        start,
                        super::stack::spec_shown_len(v, offsets),
                    );
                }
                GameWidget::remember(&mut state.bounds_cache, area_id, new_bounds);
            },
            None => {},
        }
        s
    }

    /// Whether area `id` can be drawn (see `spec_area_drawable`).
    fn is_area_drawable(&self, area_id: AreaId) -> (b: bool)
        requires
            self.game.wf(),
        ensures
            b == self.spec_area_drawable(area_id),
    {
        if !bounds_for_area_ok(area_id, self.bounds) {
            return false;
        }
        let bounds = bounds_for_area(area_id, self.bounds);
        match self.game.stack(area_id) {
            Some(stack) => {
                let widget = StackWidget { bounds, stack: &stack };
                assert(widget.spec_view() == self.spec_area_view(area_id));
                widget.is_drawable()
            },
            None => true,
        }
    }

    /// The help screen as drawn over the display.
    fn write_help(&self) -> (s: String)
        requires
            (HelpWidget { bounds: self.bounds }).spec_drawable(),
        ensures
            s@ == (HelpWidget { bounds: self.bounds }).spec_text(),
    {
        let widget = HelpWidget { bounds: self.bounds };
        widget.fmt()
    }

    /// The win message as drawn over the display.
    fn write_win(&self) -> (s: String)
        requires
            (WinWidget { bounds: self.bounds }).spec_drawable(),
        ensures
            s@ == (WinWidget { bounds: self.bounds }).spec_text(),
    {
        let widget = WinWidget { bounds: self.bounds };
        widget.fmt()
    }
}

impl<'a> GameWidget<'a> {
    /// The areas drawn while playing: all of them after a full refresh, the changed ones
    /// otherwise.
    pub open spec fn spec_drawn_ids(&self, state: GameWidgetStateValue) -> Seq<AreaId> {
        if self.spec_full_refresh_required(state) {
            self.game.areas.spec_ids()
        } else {
            self.area_ids@
        }
    }

    /// The remembered rectangles the drawing starts from: none after a full refresh, since the
    /// screen is cleared.
    pub open spec fn spec_start_cache(&self, state: GameWidgetStateValue) -> Seq<(AreaId, Rect)> {
        if self.spec_full_refresh_required(state) {
            Seq::empty()
        } else {
            state.bounds_cache@
        }
    }

    /// Whether the display can be drawn from `state`: every area drawn while playing, or the
    /// help screen or the win message.
    pub open spec fn spec_drawable(&self, state: GameWidgetStateValue) -> bool {
        match self.display_state {
            DisplayState::Playing => forall|i: int|
                0 <= i < self.spec_drawn_ids(state).len() ==> self.spec_area_drawable(
                    #[trigger] self.spec_drawn_ids(state)[i],
                ),
            DisplayState::HelpMessageOpen => (HelpWidget { bounds: self.bounds }).spec_drawable(),
            DisplayState::WinMessageOpen => (WinWidget { bounds: self.bounds }).spec_drawable(),
            DisplayState::Quitting => true,
        }
    }

    /// Whether the display can be drawn from `state` (see `spec_drawable`).
    pub fn is_drawable(&self, state: &GameWidgetState) -> (b: bool)
        requires
            self.game.wf(),
        ensures
            b == self.spec_drawable(state.cell),
    {
        match self.display_state {
            DisplayState::Playing => {
                let ids: Vec<AreaId> = if self.is_full_refresh_required(&state.cell) {
                    self.game.area_ids()
                } else {
                    copy_ids(self.area_ids)
                };
                let ghost drawn = self.spec_drawn_ids(state.cell);
                assert(ids@ == drawn);
                let mut k: usize = 0;
                while k < ids.len()
                    invariant
                        self.game.wf(),
                        ids@ == drawn,
                        drawn == self.spec_drawn_ids(state.cell),
                        self.display_state == DisplayState::Playing,
                        k <= ids@.len(),
                        forall|j: int| 0 <= j < k ==> self.spec_area_drawable(#[trigger] drawn[j]),
                    decreases ids@.len() - k,
                {
                    if !self.is_area_drawable(ids[k]) {
                        assert(!self.spec_area_drawable(self.spec_drawn_ids(state.cell)[k as int]));
                        return false;
                    }
                    k = k + 1;
                }
                true
            },
            DisplayState::HelpMessageOpen => {
                let widget = HelpWidget { bounds: self.bounds };
                widget.is_drawable()
            },
            DisplayState::WinMessageOpen => {
                let widget = WinWidget { bounds: self.bounds };
                widget.is_drawable()
            },
            DisplayState::Quitting => true,
        }
    }

    /// The display as drawn from `state`: the screen cleared when a full refresh is required,
    /// then the areas drawn while playing, or the help screen, or the win message.
    pub open spec fn spec_text(&self, state: GameWidgetStateValue) -> Seq<char> {
        let prefix = if self.spec_full_refresh_required(state) {
            spec_clear_all_code()
        } else {
            Seq::empty()
        };
        prefix + match self.display_state {
            DisplayState::Playing => self.spec_areas(
                self.spec_drawn_ids(state),
                self.spec_start_cache(state),
            ).0,
            DisplayState::HelpMessageOpen => (HelpWidget { bounds: self.bounds }).spec_text(),
            DisplayState::WinMessageOpen => (WinWidget { bounds: self.bounds }).spec_text(),
            DisplayState::Quitting => Seq::empty(),
        }
    }

    /// The remembered rectangles after drawing from `state`.
    pub open spec fn spec_cache_after(&self, state: GameWidgetStateValue) -> Seq<(AreaId, Rect)> {
        match self.display_state {
            DisplayState::Playing => self.spec_areas(
                self.spec_drawn_ids(state),
                self.spec_start_cache(state),
            ).1,
            _ => self.spec_start_cache(state),
        }
    }

    /// The display as drawn (see `spec_text`); the state remembers where the areas were drawn,
    /// and the bounds and display state of this drawing.
    pub fn fmt(&self, state: &mut GameWidgetState) -> (s: String)
        requires
            self.game.wf(),
            old(state).cell.wf(),
            self.spec_drawable(old(state).cell),
        ensures
            final(state).cell.wf(),
            s@ == self.spec_text(old(state).cell),
            final(state).cell.bounds_cache@ == self.spec_cache_after(old(state).cell),
            final(state).cell.prev_bounds == Some(self.bounds),
            final(state).cell.prev_display_state == Some(self.display_state),
    {
        let ghost old_cell = state.cell;
        let full = self.is_full_refresh_required(&state.cell);
        let mut s = String::new();
        if full {
            state.cell.bounds_cache.clear();
            let clear = clear_all_code();
            s.append(clear.as_str());
        }
        assert(state.cell.bounds_cache@ == self.spec_start_cache(old_cell));
        match self.display_state {
            DisplayState::Playing => {
                let ids: Vec<AreaId> = if full {
                    self.game.area_ids()
                } else {
                    copy_ids(self.area_ids)
                };
                assert(ids@ == self.spec_drawn_ids(old_cell));
                let ghost prefix = s@;
                let ghost start = state.cell.bounds_cache@;
                let mut k: usize = 0;
                assert(ids@.take(0) =~= Seq::<AreaId>::empty());
                while k < ids.len()
                    invariant
                        self.game.wf(),
                        state.cell.wf(),
                        ids@ == self.spec_drawn_ids(old_cell),
                        forall|i: int|
                            0 <= i < ids@.len() ==> self.spec_area_drawable(#[trigger] ids@[i]),
                        k <= ids@.len(),
                        s@ == prefix + self.spec_areas(ids@.take(k as int), start).0,
                        state.cell.bounds_cache@ == self.spec_areas(ids@.take(k as int), start).1,
                    decreases ids@.len() - k,
                {
                    assert(ids@.take(k + 1).drop_last() =~= ids@.take(k as int));
                    assert(ids@.take(k + 1).last() == ids@[k as int]);
                    let text = self.write_area(ids[k], &mut state.cell);
                    s.append(text.as_str());
                    k = k + 1;
                }
                assert(ids@.take(ids@.len() as int) =~= ids@);
            },
            DisplayState::HelpMessageOpen => {
                let text = self.write_help();
                s.append(text.as_str());
            },
            DisplayState::WinMessageOpen => {
                let text = self.write_win();
                s.append(text.as_str());
            },
            DisplayState::Quitting => {},
        }
        state.cell.prev_bounds = Some(self.bounds);
        state.cell.prev_display_state = Some(self.display_state);
        s
    }
}

} // verus!
