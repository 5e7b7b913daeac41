//! Drawing a Klondike game on a terminal: widgets that render themselves as text with
//! terminal escape codes.

use vstd::prelude::*;

pub mod blank;
pub mod bounds;
pub mod card;
pub mod coords;
pub mod error;
pub mod escape;
pub mod format_str;
pub mod frame;
pub mod game;
pub mod geometry;
pub mod help;
pub mod selector;
pub mod stack;
pub mod screen;
pub mod win;

verus! {

/// What the display shows.
#[derive(Clone, Copy, Debug, Hash, Eq, PartialEq, Structural)]
pub enum DisplayState {
    Playing,
    HelpMessageOpen,
    Quitting,
    WinMessageOpen,
}

} // verus!
