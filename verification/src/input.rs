//! What the keys of the terminal do: each display state maps a key to an update of the game.

use vstd::prelude::*;

use crate::display::DisplayState;
use crate::engine::Update;
use crate::model::area::AreaId;
use crate::model::card::Suit;
use crate::model::game::Action;

verus! {

/// A key pressed on the terminal.
#[derive(Copy, Clone, Debug, PartialEq, Eq, Structural)]
pub enum Key {
    Char(char),
    Left,
    Right,
    Up,
    Down,
    /// A function key and its number.
    F(u8),
    Esc,
    /// Any other key.
    Other,
}

/// What a key does while playing: `q` quits, `h` and `?` open help, `s` and `t` go to the stock
/// and the talon, `f` to the next foundation that takes the selection, the left arrow moves
/// left, `j` `k` `l` and the other arrows select less, select more and move right, `1` to `9` go to a tableaux,
/// F1 to F4 to a foundation, `-` goes back, Esc returns held cards, and space or return
/// activates.
pub open spec fn spec_playing_input(key: Key) -> Option<Update> {
    match key {
        Key::Char('q') => Some(Update::State(DisplayState::Quitting)),
        Key::Char('?') | Key::Char('h') => Some(Update::State(DisplayState::HelpMessageOpen)),
        Key::Char('s') => Some(Update::Action(Action::MoveTo(AreaId::Stock))),
        Key::Char('t') => Some(Update::Action(Action::MoveTo(AreaId::Talon))),
        Key::Char('f') => Some(Update::Action(Action::MoveToFoundation)),
        Key::Left => Some(Update::Action(Action::MoveLeft)),
        Key::Char('j') | Key::Down => Some(Update::Action(Action::SelectLess)),
        Key::Char('k') | Key::Up => Some(Update::Action(Action::SelectMore)),
        Key::Char('l') | Key::Right => Some(Update::Action(Action::MoveRight)),
        Key::Char('-') => Some(Update::Action(Action::MoveBack)),
        Key::Esc => Some(Update::Action(Action::ReturnHeld)),
        Key::Char(' ') | Key::Char('\n') => Some(Update::Action(Action::Activate)),
        Key::Char(c) => if '1' <= c && c <= '9' {
            Some(Update::Action(Action::MoveTo(AreaId::Tableaux((c as u32 - '1' as u32) as u8))))
        } else {
            None
        },
        Key::F(i) => if 1 <= i && i <= 4 {
            Some(
                Update::Action(
                    Action::MoveTo(AreaId::Foundation(Suit::spec_from_index((i - 1) as u8).unwrap())),
                ),
            )
        } else {
            None
        },
        _ => None,
    }
}

/// What a key does while playing (see `spec_playing_input`).
pub fn handle_playing_input(key: Key) -> (update: Option<Update>)
    ensures
        update == spec_playing_input(key),
{
    match key {
        Key::Char('q') => Some(Update::State(DisplayState::Quitting)),
        Key::Char('?') | Key::Char('h') => Some(Update::State(DisplayState::HelpMessageOpen)),
        Key::Char('s') => Some(Update::Action(Action::MoveTo(AreaId::Stock))),
        Key::Char('t') => Some(Update::Action(Action::MoveTo(AreaId::Talon))),
        Key::Char('f') => Some(Update::Action(Action::MoveToFoundation)),
        Key::Left => Some(Update::Action(Action::MoveLeft)),
        Key::Char('j') | Key::Down => Some(Update::Action(Action::SelectLess)),
        Key::Char('k') | Key::Up => Some(Update::Action(Action::SelectMore)),
        Key::Char('l') | Key::Right => Some(Update::Action(Action::MoveRight)),
        Key::Char('-') => Some(Update::Action(Action::MoveBack)),
        Key::Esc => Some(Update::Action(Action::ReturnHeld)),
        Key::Char(' ') | Key::Char('\n') => Some(Update::Action(Action::Activate)),
        Key::Char(c) => if '1' <= c && c <= '9' {
            let index = (c as u32 - '1' as u32) as u8;
            Some(Update::Action(Action::MoveTo(AreaId::Tableaux(index))))
        } else {
            None
        },
        Key::F(i) => if 1 <= i && i <= 4 {
            match Suit::from_index(i - 1) {
                Some(suit) => Some(Update::Action(Action::MoveTo(AreaId::Foundation(suit)))),
                None => None,
            }
        } else {
            None
        },
        _ => None,
    }
}

/// On the help screen, any key goes back to playing.
pub fn handle_help_input(key: Key) -> (update: Option<Update>)
    ensures
        update == Some(Update::State(DisplayState::Playing)),
{
    Some(Update::State(DisplayState::Playing))
}

/// What a key does on the win message: `y` deals a new game, `n` quits.
pub open spec fn spec_win_input(key: Key) -> Option<Update> {
    match key {
        Key::Char('y') => Some(Update::NewGame),
        Key::Char('n') => Some(Update::State(DisplayState::Quitting)),
        _ => None,
    }
}

/// What a key does on the win message (see `spec_win_input`).
pub fn handle_win_input(key: Key) -> (update: Option<Update>)
    ensures
        update == spec_win_input(key),
{
    match key {
        Key::Char('y') => Some(Update::NewGame),
        Key::Char('n') => Some(Update::State(DisplayState::Quitting)),
        _ => None,
    }
}

/// What a key does in a display state: playing and the help and win screens each have their
/// mapping; while quitting, keys do nothing.
pub open spec fn spec_map_input(state: DisplayState, key: Key) -> Option<Update> {
    match state {
        DisplayState::Playing => spec_playing_input(key),
        DisplayState::HelpMessageOpen => Some(Update::State(DisplayState::Playing)),
        DisplayState::WinMessageOpen => spec_win_input(key),
        DisplayState::Quitting => None,
    }
}

/// What a key does in a display state (see `spec_map_input`).
pub fn map_input(state: DisplayState, key: Key) -> (update: Option<Update>)
    ensures
        update == spec_map_input(state, key),
{
    match state {
        DisplayState::Playing => handle_playing_input(key),
        DisplayState::HelpMessageOpen => handle_help_input(key),
        DisplayState::WinMessageOpen => handle_win_input(key),
        DisplayState::Quitting => None,
    }
}

/// While playing, the letter keys do what the arrows do: `j`, `k` and `l` act as the down, up
/// and right arrows. Up selects one card more and down one card fewer, so the two undo each
/// other; left and right move the selection to either side; `h` opens help, as `?` does.
pub proof fn lemma_letter_keys_act_as_arrows()
    ensures
        spec_playing_input(Key::Char('j')) == spec_playing_input(Key::Down),
        spec_playing_input(Key::Char('k')) == spec_playing_input(Key::Up),
        spec_playing_input(Key::Char('l')) == spec_playing_input(Key::Right),
        spec_playing_input(Key::Char('h')) == spec_playing_input(Key::Char('?')),
        spec_playing_input(Key::Up) == Some(Update::Action(Action::SelectMore)),
        spec_playing_input(Key::Down) == Some(Update::Action(Action::SelectLess)),
        spec_playing_input(Key::Left) == Some(Update::Action(Action::MoveLeft)),
        spec_playing_input(Key::Right) == Some(Update::Action(Action::MoveRight)),
        spec_playing_input(Key::Char('?')) == Some(Update::State(DisplayState::HelpMessageOpen)),
{
}

} // verus!
