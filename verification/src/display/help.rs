//! The help screen: the keys of the game and what they do, in two columns inside a frame.

use vstd::prelude::*;

use super::escape::{fg_code, spec_fg_code, TermColor};
use super::format_str::FormattedString;
use super::frame::{double, spec_double_style, spec_frame_text, Direction, FrameWidget, Title};
use super::geometry::{goto, point2, size2, spec_goto, Point, Rect, SideOffsets, Size};

verus! {

/// The color of keys.
pub open spec fn spec_key_style() -> Seq<char> {
    spec_fg_code(TermColor::Cyan)
}

/// The color after a key.
pub open spec fn spec_reset_style() -> Seq<char> {
    spec_fg_code(TermColor::Reset)
}

/// The color of descriptions.
pub open spec fn spec_description_style() -> Seq<char> {
    spec_fg_code(TermColor::White)
}

/// The color of keys.
pub fn key_style() -> (s: String)
    ensures
        s@ == spec_key_style(),
{
    fg_code(TermColor::Cyan)
}

/// The color after a key.
pub fn reset_style() -> (s: String)
    ensures
        s@ == spec_reset_style(),
{
    fg_code(TermColor::Reset)
}

/// The color of descriptions.
pub fn description_style() -> (s: String)
    ensures
        s@ == spec_description_style(),
{
    fg_code(TermColor::White)
}

/// The keys of a list, each in the key color, separated by ` / ` in the reset color.
pub open spec fn spec_list_text(keys: Seq<&'static str>) -> Seq<char>
    decreases keys.len(),
{
    if keys.len() == 0 {
        Seq::empty()
    } else if keys.len() == 1 {
        spec_key_style() + keys[0]@
    } else {
        spec_list_text(keys.drop_last()) + spec_reset_style() + " / "@ + spec_key_style()
            + keys.last()@
    }
}

/// The cells the keys of a list take, separators included.
pub open spec fn spec_list_len(keys: Seq<&'static str>) -> int
    decreases keys.len(),
{
    if keys.len() == 0 {
        0
    } else if keys.len() == 1 {
        keys[0]@.len() as int
    } else {
        spec_list_len(keys.drop_last()) + 3 + keys.last()@.len()
    }
}

/// The cells of a prefix of a list are no more than those of the whole list.
proof fn lemma_list_len_prefix(keys: Seq<&'static str>, j: int)
    requires
        0 <= j <= keys.len(),
    ensures
        spec_list_len(keys.take(j)) <= spec_list_len(keys),
    decreases keys.len() - j,
{
    if j < keys.len() {
        lemma_list_len_prefix(keys, j + 1);
        let longer = keys.take(j + 1);
        assert(longer.drop_last() =~= keys.take(j));
        if j == 0 {
            assert(keys.take(0).len() == 0);
        }
    } else {
        assert(keys.take(j) =~= keys);
    }
}

/// The keys of one line of help.
#[derive(Debug)]
pub enum HelpItemKeys {
    Single(&'static str),
    List(Vec<&'static str>),
    Range(&'static str, &'static str),
}

impl HelpItemKeys {
    /// The keys as drawn: a key in the key color; a list (see `spec_list_text`); or the first
    /// and last key of a range around ` ... `.
    pub open spec fn spec_text(&self) -> Seq<char> {
        match self {
            HelpItemKeys::Single(key) => spec_key_style() + key@,
            HelpItemKeys::List(keys) => spec_list_text(keys@),
            HelpItemKeys::Range(start, end) => spec_key_style() + start@ + spec_reset_style()
                + " ... "@ + spec_key_style() + end@,
        }
    }

    /// The cells the keys take.
    pub open spec fn spec_len(&self) -> int {
        match self {
            HelpItemKeys::Single(key) => key@.len() as int,
            HelpItemKeys::List(keys) => spec_list_len(keys@),
            HelpItemKeys::Range(start, end) => start@.len() + end@.len() + 5int,
        }
    }

    /// The cells the keys take.
    pub fn len(&self) -> (n: usize)
        requires
            self.spec_len() <= usize::MAX,
        ensures
            n == self.spec_len(),
    {
        match self {
            HelpItemKeys::Single(key) => key.unicode_len(),
            HelpItemKeys::List(keys) => {
                let mut total: usize = 0;
                let mut k: usize = 0;
                proof {
                    assert(keys@.take(0) =~= Seq::<&'static str>::empty());
                }
                while k < keys.len()
                    invariant
                        k <= keys@.len(),
                        spec_list_len(keys@) <= usize::MAX,
                        total == spec_list_len(keys@.take(k as int)),
                    decreases keys@.len() - k,
                {
                    proof {
                        lemma_list_len_prefix(keys@, k as int + 1);
                        assert(keys@.take(k + 1).drop_last() =~= keys@.take(k as int));
                    }
                    let key_len = keys[k].unicode_len();
                    if k == 0 {
                        total = key_len;
                    } else {
                        total = total + 3 + key_len;
                    }
                    k = k + 1;
                }
                assert(keys@.take(keys@.len() as int) =~= keys@);
                total
            },
            HelpItemKeys::Range(start, end) => {
                start.unicode_len() + end.unicode_len() + 5
            },
        }
    }
}

impl HelpItemKeys {
    /// The keys as drawn (see `spec_text`).
    pub fn fmt(&self) -> (s: String)
        ensures
            s@ == self.spec_text(),
    {
        let key_style = key_style();
        match self {
            HelpItemKeys::Single(key) => {
                let mut s = key_style;
                s.append(key);
                s
            },
            HelpItemKeys::List(keys) => {
                let reset = reset_style();
                let mut s = String::new();
                let mut k: usize = 0;
                proof {
                    assert(keys@.take(0) =~= Seq::<&'static str>::empty());
                }
                while k < keys.len()
                    invariant
                        k <= keys@.len(),
                        key_style@ == spec_key_style(),
                        reset@ == spec_reset_style(),
                        s@ == spec_list_text(keys@.take(k as int)),
                    decreases keys@.len() - k,
                {
                    proof {
                        assert(keys@.take(k + 1).drop_last() =~= keys@.take(k as int));
                    }
                    if k > 0 {
                        s.append(reset.as_str());
                        s.append(" / ");
                    }
                    s.append(key_style.as_str());
                    s.append(keys[k]);
                    k = k + 1;
                }
                assert(keys@.take(keys@.len() as int) =~= keys@);
                s
            },
            HelpItemKeys::Range(start, end) => {
                let reset = reset_style();
                let mut s = key_style.clone();
                s.append(start);
                s.append(reset.as_str());
                s.append(" ... ");
                s.append(key_style.as_str());
                s.append(end);
                s
            },
        }
    }
}

/// One line of help: keys and what they do, or an empty line.
#[derive(Debug)]
pub enum HelpItemWidget {
    Mapping { origin: Point, keys: HelpItemKeys, description: &'static str },
    Skip { origin: Point },
}

/// A line of help as drawn at `origin`: the keys, then ` :  ` and the description in the
/// description color.
pub open spec fn spec_mapping_text(origin: Point, keys: Seq<char>, description: Seq<char>) -> Seq<
    char,
> {
    spec_goto(origin) + keys + spec_reset_style() + " :  "@ + spec_description_style() + description
}

impl HelpItemWidget {
    /// The line as drawn; nothing for an empty line.
    pub open spec fn spec_text(&self) -> Seq<char> {
        match self {
            HelpItemWidget::Mapping { origin, keys, description } => spec_mapping_text(
                *origin,
                keys.spec_text(),
                description@,
            ),
            HelpItemWidget::Skip { .. } => Seq::empty(),
        }
    }

    /// The line fits the terminal's coordinates.
    pub open spec fn spec_drawable(&self) -> bool {
        match self {
            HelpItemWidget::Mapping { origin, keys, description } => origin.x < u16::MAX
                && origin.y < u16::MAX && keys.spec_len() + description@.len() + 4 <= u16::MAX,
            HelpItemWidget::Skip { .. } => true,
        }
    }

    /// The cells of the line: keys, description and the separator between them.
    pub fn bounds(&self) -> (r: Rect)
        requires
            self.spec_drawable(),
        ensures
            match self {
                HelpItemWidget::Mapping { origin, keys, description } => r == Rect {
                    origin: *origin,
                    size: Size { width: (keys.spec_len() + description@.len() + 4) as u16, height: 0 },
                },
                HelpItemWidget::Skip { origin } => r == Rect {
                    origin: *origin,
                    size: Size { width: 0, height: 0 },
                },
            },
    {
        match self {
            HelpItemWidget::Mapping { origin, keys, description } => {
                let length = (keys.len() + description.unicode_len() + 4) as u16;
                Rect::new(*origin, size2(length, 0))
            },
            HelpItemWidget::Skip { origin } => Rect::new(*origin, size2(0, 0)),
        }
    }

    /// The line as drawn (see `spec_text`).
    pub fn fmt(&self) -> (s: String)
        requires
            self.spec_drawable(),
        ensures
            s@ == self.spec_text(),
    {
        match self {
            HelpItemWidget::Mapping { origin, keys, description } => {
                let mut s = goto(*origin);
                let keys_text = keys.fmt();
                let reset = reset_style();
                let white = description_style();
                s.append(keys_text.as_str());
                s.append(reset.as_str());
                s.append(" :  ");
                s.append(white.as_str());
                s.append(description);
                s
            },
            HelpItemWidget::Skip { .. } => String::new(),
        }
    }
}

/// Line `i` of the left column of help, drawn at `at`.
pub open spec fn spec_left_item(at: Point, i: int) -> Seq<char> {
    if i == 0 {
        spec_mapping_text(at, spec_list_text(seq!["j", "k", "l"]), "Move"@)
    } else if i == 1 {
        spec_mapping_text(at, spec_list_text(seq!["←", "↓", "↑", "→"]), "Move"@)
    } else if i == 2 {
        Seq::empty()
    } else if i == 3 {
        spec_mapping_text(at, spec_key_style() + "s"@, "Go to Stock/Deck"@)
    } else if i == 4 {
        spec_mapping_text(at, spec_key_style() + "t"@, "Go to Talon/Waste"@)
    } else if i == 5 {
        spec_mapping_text(at, spec_key_style() + "f"@, "Go to next Foundation"@)
    } else {
        spec_mapping_text(at, spec_key_style() + "-"@, "Go back to previous area"@)
    }
}

/// The left column of help, one line per row from `origin` down: moving, then going to the
/// stock, the talon, the next foundation and back.
fn left_column_items(origin: Point) -> (items: Vec<HelpItemWidget>)
    requires
        origin.x < u16::MAX,
        origin.y + 7 < u16::MAX,
    ensures
        items@.len() == 7,
        forall|i: int|
            0 <= i < 7 ==> (#[trigger] items@[i]).spec_drawable() && items@[i].spec_text()
                == spec_left_item(Point { x: origin.x, y: (origin.y + i) as u16 }, i),
{
    proof {
        reveal_strlit("-");
        reveal_strlit("Go back to previous area");
        reveal_strlit("Go to Stock/Deck");
        reveal_strlit("Go to Talon/Waste");
        reveal_strlit("Go to next Foundation");
        reveal_strlit("Move");
        reveal_strlit("f");
        reveal_strlit("h");
        reveal_strlit("j");
        reveal_strlit("k");
        reveal_strlit("l");
        reveal_strlit("s");
        reveal_strlit("t");
        reveal_strlit("←");
        reveal_strlit("↑");
        reveal_strlit("→");
        reveal_strlit("↓");
    }
    let mut items: Vec<HelpItemWidget> = Vec::new();
    items.push(
        HelpItemWidget::Mapping {
            origin: point2(origin.x, origin.y + 0),
            keys: HelpItemKeys::List(vec!["j", "k", "l"]),
            description: "Move",
        },
    );
    items.push(
        HelpItemWidget::Mapping {
            origin: point2(origin.x, origin.y + 1),
            keys: HelpItemKeys::List(vec!["←", "↓", "↑", "→"]),
            description: "Move",
        },
    );
    items.push(HelpItemWidget::Skip { origin: point2(origin.x, origin.y + 2) });
    items.push(
        HelpItemWidget::Mapping {
            origin: point2(origin.x, origin.y + 3),
            keys: HelpItemKeys::Single("s"),
            description: "Go to Stock/Deck",
        },
    );
    items.push(
        HelpItemWidget::Mapping {
            origin: point2(origin.x, origin.y + 4),
            keys: HelpItemKeys::Single("t"),
            description: "Go to Talon/Waste",
        },
    );
    items.push(
        HelpItemWidget::Mapping {
            origin: point2(origin.x, origin.y + 5),
            keys: HelpItemKeys::Single("f"),
            description: "Go to next Foundation",
        },
    );
    items.push(
        HelpItemWidget::Mapping {
            origin: point2(origin.x, origin.y + 6),
            keys: HelpItemKeys::Single("-"),
            description: "Go back to previous area",
        },
    );
    proof {
        assert forall|i: int| 0 <= i < 7 implies (#[trigger] items@[i]).spec_drawable()
            && items@[i].spec_text() == spec_left_item(
            Point { x: origin.x, y: (origin.y + i) as u16 },
            i,
        ) by {
            reveal_with_fuel(spec_list_text, 5);
            reveal_with_fuel(spec_list_len, 5);
        }
    }
    items
}

/// Line `i` of the right column of help, drawn at `at`.
pub open spec fn spec_right_item(at: Point, i: int) -> Seq<char> {
    if i == 0 {
        spec_mapping_text(
            at,
            spec_key_style() + "F1"@ + spec_reset_style() + " ... "@ + spec_key_style() + "F4"@,
            "Go to Foundation"@,
        )
    } else if i == 1 {
        spec_mapping_text(
            at,
            spec_key_style() + "1"@ + spec_reset_style() + " ... "@ + spec_key_style() + "7"@,
            "Go to Tableaux"@,
        )
    } else if i == 2 {
        Seq::empty()
    } else if i == 3 {
        spec_mapping_text(at, spec_list_text(seq!["SPACE", "RETURN"]), "Pick Up/Activate"@)
    } else if i == 4 {
        spec_mapping_text(at, spec_key_style() + "ESC"@, "Return Held Cards"@)
    } else if i == 5 {
        Seq::empty()
    } else if i == 6 {
        spec_mapping_text(at, spec_list_text(seq!["h", "?"]), "Help"@)
    } else {
        spec_mapping_text(at, spec_key_style() + "q"@, "Quit"@)
    }
}

/// The right column of help, one line per row from `origin` down: going to a foundation or a
/// tableaux, activating and returning held cards, then help and quitting.
fn right_column_items(origin: Point) -> (items: Vec<HelpItemWidget>)
    requires
        origin.x < u16::MAX,
        origin.y + 8 < u16::MAX,
    ensures
        items@.len() == 8,
        forall|i: int|
            0 <= i < 8 ==> (#[trigger] items@[i]).spec_drawable() && items@[i].spec_text()
                == spec_right_item(Point { x: origin.x, y: (origin.y + i) as u16 }, i),
{
    proof {
        reveal_strlit("1");
        reveal_strlit("7");
        reveal_strlit("?");
        reveal_strlit("h");
        reveal_strlit("ESC");
        reveal_strlit("F1");
        reveal_strlit("F4");
        reveal_strlit("Go to Foundation");
        reveal_strlit("Go to Tableaux");
        reveal_strlit("Help");
        reveal_strlit("Pick Up/Activate");
        reveal_strlit("Quit");
        reveal_strlit("RETURN");
        reveal_strlit("Return Held Cards");
        reveal_strlit("SPACE");
        reveal_strlit("q");
    }
    let mut items: Vec<HelpItemWidget> = Vec::new();
    items.push(
        HelpItemWidget::Mapping {
            origin: point2(origin.x, origin.y + 0),
            keys: HelpItemKeys::Range("F1", "F4"),
            description: "Go to Foundation",
        },
    );
    items.push(
        HelpItemWidget::Mapping {
            origin: point2(origin.x, origin.y + 1),
            keys: HelpItemKeys::Range("1", "7"),
            description: "Go to Tableaux",
        },
    );
    items.push(HelpItemWidget::Skip { origin: point2(origin.x, origin.y + 2) });
    items.push(
        HelpItemWidget::Mapping {
            origin: point2(origin.x, origin.y + 3),
            keys: HelpItemKeys::List(vec!["SPACE", "RETURN"]),
            description: "Pick Up/Activate",
        },
    );
    items.push(
        HelpItemWidget::Mapping {
            origin: point2(origin.x, origin.y + 4),
            keys: HelpItemKeys::Single("ESC"),
            description: "Return Held Cards",
        },
    );
    items.push(HelpItemWidget::Skip { origin: point2(origin.x, origin.y + 5) });
    items.push(
        HelpItemWidget::Mapping {
            origin: point2(origin.x, origin.y + 6),
            keys: HelpItemKeys::List(vec!["h", "?"]),
            description: "Help",
        },
    );
    items.push(
        HelpItemWidget::Mapping {
            origin: point2(origin.x, origin.y + 7),
            keys: HelpItemKeys::Single("q"),
            description: "Quit",
        },
    );
    proof {
        assert forall|i: int| 0 <= i < 8 implies (#[trigger] items@[i]).spec_drawable()
            && items@[i].spec_text() == spec_right_item(
            Point { x: origin.x, y: (origin.y + i) as u16 },
            i,
        ) by {
            reveal_with_fuel(spec_list_text, 5);
            reveal_with_fuel(spec_list_len, 5);
        }
    }
    items
}

/// The first `n` lines of the left or the right column of help, from `origin` down.
pub open spec fn spec_column_text(origin: Point, n: int, left: bool) -> Seq<char>
    decreases n,
{
    if n <= 0 {
        Seq::empty()
    } else {
        let at = Point { x: origin.x, y: (origin.y + n - 1) as u16 };
        spec_column_text(origin, n - 1, left) + if left {
            spec_left_item(at, n - 1)
        } else {
            spec_right_item(at, n - 1)
        }
    }
}

/// The lines of a column, drawn one after the other.
fn column_text(items: &Vec<HelpItemWidget>, origin: Point, left: bool) -> (s: String)
    requires
        forall|i: int|
            0 <= i < items@.len() ==> (#[trigger] items@[i]).spec_drawable() && items@[i].spec_text()
                == if left {
                spec_left_item(Point { x: origin.x, y: (origin.y + i) as u16 }, i)
            } else {
                spec_right_item(Point { x: origin.x, y: (origin.y + i) as u16 }, i)
            },
    ensures
        s@ == spec_column_text(origin, items@.len() as int, left),
{
    let mut s = String::new();
    let mut k: usize = 0;
    while k < items.len()
        invariant
            k <= items@.len(),
            forall|i: int|
                0 <= i < items@.len() ==> (#[trigger] items@[i]).spec_drawable()
                    && items@[i].spec_text() == if left {
                    spec_left_item(Point { x: origin.x, y: (origin.y + i) as u16 }, i)
                } else {
                    spec_right_item(Point { x: origin.x, y: (origin.y + i) as u16 }, i)
                },
            s@ == spec_column_text(origin, k as int, left),
        decreases items@.len() - k,
    {
        let line = items[k].fmt();
        s.append(line.as_str());
        k = k + 1;
    }
    s
}

/// The help screen in `bounds`.
#[derive(Debug)]
pub struct HelpWidget {
    pub bounds: Rect,
}

impl HelpWidget {
    /// The frame of the help screen: one row in from the top and bottom of the bounds and two
    /// columns in from its sides.
    pub open spec fn spec_frame_bounds(&self) -> Rect {
        Rect {
            origin: Point { x: (self.bounds.origin.x + 2) as u16, y: (self.bounds.origin.y + 1) as u16 },
            size: Size {
                width: (self.bounds.size.width - 4) as u16,
                height: (self.bounds.size.height - 2) as u16,
            },
        }
    }

    /// The inside of the frame, past its border and padding.
    pub open spec fn spec_inner_bounds(&self) -> Rect {
        let frame = self.spec_frame_bounds();
        Rect {
            origin: Point { x: (frame.origin.x + 3) as u16, y: (frame.origin.y + 2) as u16 },
            size: Size {
                width: (frame.size.width - 6) as u16,
                height: (frame.size.height - 4) as u16,
            },
        }
    }

    /// The screen fits its bounds and the terminal's coordinates.
    pub open spec fn spec_drawable(&self) -> bool {
        &&& self.bounds.size.width >= 10
        &&& self.bounds.size.height >= 6
        &&& self.bounds.origin.x + self.bounds.size.width < u16::MAX
        &&& self.bounds.origin.y + self.bounds.size.height + 8 < u16::MAX
    }

    /// Whether the screen can be drawn (see `spec_drawable`).
    pub fn is_drawable(&self) -> (b: bool)
        ensures
            b == self.spec_drawable(),
    {
        let bounds = self.bounds;
        bounds.size.width >= 10 && bounds.size.height >= 6 && (bounds.origin.x as u32
            + bounds.size.width as u32) < 65535 && (bounds.origin.y as u32
            + bounds.size.height as u32 + 8) < 65535
    }

    /// The help screen as drawn: a double frame titled `H E L P` with `Press any key to
    /// continue . . .` at the right of its bottom line, then the left column from the top-left
    /// cell of the inside and the right column from one cell right of its middle.
    pub open spec fn spec_text(&self) -> Seq<char> {
        let inner = self.spec_inner_bounds();
        let middle = Point {
            x: (inner.origin.x + inner.size.width / 2 + 1) as u16,
            y: inner.origin.y,
        };
        spec_frame_text(
            self.spec_frame_bounds(),
            spec_double_style(),
            Some(("H E L P"@, "H E L P"@.len() as int, Direction::Center)),
            Some(
                (
                    "Press any key to continue . . ."@,
                    "Press any key to continue . . ."@.len() as int,
                    Direction::Right,
                ),
            ),
        ) + spec_column_text(inner.origin, 7, true) + spec_column_text(middle, 8, false)
    }

    /// The area the widget covers.
    pub fn bounds(&self) -> (r: Rect)
        ensures
            r == self.bounds,
    {
        self.bounds
    }

    /// The help screen as drawn (see `spec_text`).
    pub fn fmt(&self) -> (s: String)
        requires
            self.spec_drawable(),
        ensures
            s@ == self.spec_text(),
    {
        let margin = SideOffsets::new(1, 2, 1, 2);
        let border = SideOffsets::new_all_same(1);
        let padding = SideOffsets::new(1, 2, 1, 2);
        let frame_bounds = self.bounds.inner_rect(margin);
        let inner_bounds = frame_bounds.inner_rect(border.combined(padding));
        let style = double();
        proof {
            reveal_strlit("╡ ");
            reveal_strlit(" ╞");
            reveal_strlit("H E L P");
            reveal_strlit("Press any key to continue . . .");
        }
        let frame = FrameWidget {
            bounds: frame_bounds,
            top_title: Some(Title::center(FormattedString::of_content("H E L P"))),
            bottom_title: Some(
                Title::right(FormattedString::of_content("Press any key to continue . . .")),
            ),
            frame_style: &style,
        };
        let mut s = frame.fmt();
        let top_left = inner_bounds.origin;
        let top_middle = point2(
            inner_bounds.origin.x + inner_bounds.size.width / 2 + 1,
            inner_bounds.origin.y,
        );
        let left_items = left_column_items(top_left);
        let left_text = column_text(&left_items, top_left, true);
        s.append(left_text.as_str());
        let right_items = right_column_items(top_middle);
        let right_text = column_text(&right_items, top_middle, false);
        s.append(right_text.as_str());
        s
    }
}

} // verus!
