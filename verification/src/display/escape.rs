//! Terminal escape codes, written by `termion`.

use vstd::prelude::*;

use termion::color;

use crate::utils::spec_decimal;

verus! {

/// The start of a control sequence: escape and `[`.
pub open spec fn spec_csi() -> Seq<char> {
    seq!['\u{1b}', '[']
}

/// Moves the cursor to column `col` and row `row`, both counted from 1.
pub open spec fn spec_goto_code(col: u16, row: u16) -> Seq<char> {
    spec_csi() + spec_decimal(row as nat) + seq![';'] + spec_decimal(col as nat) + seq!['H']
}

/// Moves the cursor `n` cells in the direction that `letter` names.
pub open spec fn spec_move_code(n: u16, letter: char) -> Seq<char> {
    spec_csi() + spec_decimal(n as nat) + seq![letter]
}

/// The colors the display uses.
#[derive(Clone, Copy, Debug, PartialEq, Eq, Structural)]
pub enum TermColor {
    Reset,
    Red,
    Cyan,
    White,
    LightBlack,
    LightBlue,
    LightWhite,
}

/// The number of a color in the terminal's 256-color palette.
pub open spec fn spec_palette_index(color: TermColor) -> nat {
    match color {
        TermColor::Reset => 0,
        TermColor::Red => 1,
        TermColor::Cyan => 6,
        TermColor::White => 7,
        TermColor::LightBlack => 8,
        TermColor::LightBlue => 12,
        TermColor::LightWhite => 15,
    }
}

/// Sets the foreground color; the reset color restores the terminal's default.
pub open spec fn spec_fg_code(color: TermColor) -> Seq<char> {
    match color {
        TermColor::Reset => spec_csi() + seq!['3', '9', 'm'],
        _ => spec_csi() + seq!['3', '8', ';', '5', ';'] + spec_decimal(spec_palette_index(color))
            + seq!['m'],
    }
}

/// Clears the whole screen.
pub open spec fn spec_clear_all_code() -> Seq<char> {
    spec_csi() + seq!['2', 'J']
}

/// `termion::cursor::Goto(col, row)` as text: the control sequence, the row, `;`, the column
/// and `H`. The cell (0, 0) does not exist, since both count from 1.
#[verifier::external_body]
pub fn goto_code(col: u16, row: u16) -> (s: String)
    requires
        !(col == 0 && row == 0),
    ensures
        s@ == spec_goto_code(col, row),
{
    format!("{}", termion::cursor::Goto(col, row))
}

/// `termion::cursor::Down(n)` as text: the control sequence, `n` and `B`.
#[verifier::external_body]
pub fn down_code(n: u16) -> (s: String)
    ensures
        s@ == spec_move_code(n, 'B'),
{
    format!("{}", termion::cursor::Down(n))
}

/// `termion::cursor::Left(n)` as text: the control sequence, `n` and `D`.
#[verifier::external_body]
pub fn left_code(n: u16) -> (s: String)
    ensures
        s@ == spec_move_code(n, 'D'),
{
    format!("{}", termion::cursor::Left(n))
}

/// `termion::cursor::Right(n)` as text: the control sequence, `n` and `C`.
#[verifier::external_body]
pub fn right_code(n: u16) -> (s: String)
    ensures
        s@ == spec_move_code(n, 'C'),
{
    format!("{}", termion::cursor::Right(n))
}

/// `termion::color::Fg` of the matching `termion` color as text: the control sequence, `38;5;`,
/// the palette index and `m`; for `Reset`, the control sequence and `39m`.
#[verifier::external_body]
pub fn fg_code(color: TermColor) -> (s: String)
    ensures
        s@ == spec_fg_code(color),
{
    match color {
        TermColor::Reset => format!("{}", color::Fg(color::Reset)),
        TermColor::Red => format!("{}", color::Fg(color::Red)),
        TermColor::Cyan => format!("{}", color::Fg(color::Cyan)),
        TermColor::White => format!("{}", color::Fg(color::White)),
        TermColor::LightBlack => format!("{}", color::Fg(color::LightBlack)),
        TermColor::LightBlue => format!("{}", color::Fg(color::LightBlue)),
        TermColor::LightWhite => format!("{}", color::Fg(color::LightWhite)),
    }
}

/// `termion::clear::All` as text: the control sequence and `2J`.
#[verifier::external_body]
pub fn clear_all_code() -> (s: String)
    ensures
        s@ == spec_clear_all_code(),
{
    format!("{}", termion::clear::All)
}

} // verus!
