//! Selectors drawn on a screen of character cells: a bracket under or beside the selected
//! cards.

use vstd::prelude::*;

use super::super::coords::Coords;
use super::super::screen::{spec_prints, ColorPair, KlondikeDisplay, Print, PrintView};

verus! {

/// The pieces between the ends of a selector of `len` cells: one at each of the `len - 2`
/// cells after the first, none when `len` is 2 or less.
pub open spec fn spec_selector_middle(
    x: int,
    y: int,
    len: int,
    dx: int,
    dy: int,
    piece: Seq<char>,
) -> Seq<PrintView> {
    let n = if len >= 2 {
        len - 2
    } else {
        0
    };
    Seq::new(n as nat, |k: int| (y + dy * (k + 1), x + dx * (k + 1), piece, ColorPair::Default))
}

/// A selector under cards, from column `x` of row `y` over `len` cells: `╘`, then `═` up to
/// the last cell, which gets `╛` (over the first one when `len` is 1).
pub open spec fn spec_horizontal_selector_prints(x: int, y: int, len: int) -> Seq<PrintView> {
    seq![(y, x, "╘"@, ColorPair::Default)] + spec_selector_middle(x, y, len, 1, 0, "═"@) + seq![
        (y, x + len - 1, "╛"@, ColorPair::Default),
    ]
}

/// A selector beside cards, from row `y` of column `x` down over `len` cells: `╓`, then `║` up
/// to the last cell, which gets `╙` (over the first one when `len` is 1).
pub open spec fn spec_vertical_selector_prints(x: int, y: int, len: int) -> Seq<PrintView> {
    seq![(y, x, "╓"@, ColorPair::Default)] + spec_selector_middle(x, y, len, 0, 1, "║"@) + seq![
        (y + len - 1, x, "╙"@, ColorPair::Default),
    ]
}

/// Prints `text` at row `y` and column `x` in the default pair.
fn print_default(display: &mut KlondikeDisplay, y: i32, x: i32, text: &str)
    ensures
        final(display).spec_pending() == old(display).spec_pending().push(
            (y as int, x as int, text@, ColorPair::Default),
        ),
{
    let ghost before = display.prints@;
    display.prints.push(Print { y, x, text: String::from_str(text), color: ColorPair::Default });
    assert(spec_prints(display.prints@) =~= spec_prints(before).push(
        (y as int, x as int, text@, ColorPair::Default),
    ));
}

/// Draws a selector of `len` cells from `coords`, each piece `dx` columns and `dy` rows after
/// the one before.
fn draw_selector(
    display: &mut KlondikeDisplay,
    coords: Coords,
    len: i32,
    dx: i32,
    dy: i32,
    start: &str,
    middle: &str,
    end: &str,
)
    requires
        (dx == 1 && dy == 0) || (dx == 0 && dy == 1),
        i32::MIN <= coords.x + dx * (len - 1) <= i32::MAX,
        i32::MIN <= coords.y + dy * (len - 1) <= i32::MAX,
        i32::MIN < len,
    ensures
        final(display).spec_pending() == old(display).spec_pending() + seq![
            (coords.y as int, coords.x as int, start@, ColorPair::Default),
        ] + spec_selector_middle(coords.x as int, coords.y as int, len as int, dx as int, dy as int, middle@)
            + seq![
            (coords.y + dy * (len - 1), coords.x + dx * (len - 1), end@, ColorPair::Default),
        ],
{
    let x = coords.x;
    let y = coords.y;
    print_default(display, y, x, start);
    let ghost first = display.spec_pending();
    let last: i32 = len - 1;
    let mut i: i32 = 1;
    while i < last
        invariant
            (dx == 1 && dy == 0) || (dx == 0 && dy == 1),
            i32::MIN <= x + dx * (len - 1) <= i32::MAX,
            i32::MIN <= y + dy * (len - 1) <= i32::MAX,
            last == len - 1,
            1 <= i,
            i == 1 || i <= last,
            display.spec_pending() == first + spec_selector_middle(
                x as int,
                y as int,
                i as int + 1,
                dx as int,
                dy as int,
                middle@,
            ),
        decreases last - i,
    {
        print_default(display, y + dy * i, x + dx * i, middle);
        proof {
            assert(spec_selector_middle(x as int, y as int, i as int + 2, dx as int, dy as int, middle@)
                =~= spec_selector_middle(x as int, y as int, i as int + 1, dx as int, dy as int, middle@).push(
                (y + dy * i, x + dx * i, middle@, ColorPair::Default),
            ));
        }
        i = i + 1;
    }
    assert(spec_selector_middle(x as int, y as int, i as int + 1, dx as int, dy as int, middle@)
        =~= spec_selector_middle(x as int, y as int, len as int, dx as int, dy as int, middle@));
    print_default(display, y + dy * last, x + dx * last, end);
    assert(display.spec_pending() =~= old(display).spec_pending() + seq![
        (y as int, x as int, start@, ColorPair::Default),
    ] + spec_selector_middle(x as int, y as int, len as int, dx as int, dy as int, middle@) + seq![
        (y + dy * (len - 1), x + dx * (len - 1), end@, ColorPair::Default),
    ]);
}

/// Draws a selector under cards (see `spec_horizontal_selector_prints`).
pub fn draw_horizontal_selector(display: &mut KlondikeDisplay, coords: Coords, len: i32)
    requires
        i32::MIN < len,
        i32::MIN <= coords.x + len - 1 <= i32::MAX,
    ensures
        final(display).spec_pending() == old(display).spec_pending()
            + spec_horizontal_selector_prints(coords.x as int, coords.y as int, len as int),
{
    draw_selector(display, coords, len, 1, 0, "╘", "═", "╛");
    assert(display.spec_pending() =~= old(display).spec_pending()
        + spec_horizontal_selector_prints(coords.x as int, coords.y as int, len as int));
}

/// Draws a selector beside cards (see `spec_vertical_selector_prints`).
pub fn draw_vertical_selector(display: &mut KlondikeDisplay, coords: Coords, len: i32)
    requires
        i32::MIN < len,
        i32::MIN <= coords.y + len - 1 <= i32::MAX,
    ensures
        final(display).spec_pending() == old(display).spec_pending()
            + spec_vertical_selector_prints(coords.x as int, coords.y as int, len as int),
{
    draw_selector(display, coords, len, 0, 1, "╓", "║", "╙");
    assert(display.spec_pending() =~= old(display).spec_pending()
        + spec_vertical_selector_prints(coords.x as int, coords.y as int, len as int));
}

} // verus!
