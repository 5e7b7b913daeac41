//! Settings of the game and of the display.

use vstd::prelude::*;

verus! {

/// How the cards are dealt.
#[derive(Copy, Clone, Debug, PartialEq, Eq, Structural)]
pub enum DealerMode {
    /// Every card already on its foundation.
    AutoWin,
    /// A standard deal from an unshuffled deck.
    InOrder,
    /// A standard deal from a shuffled deck.
    Random,
}

/// Settings of the display.
#[derive(Copy, Clone, Debug, PartialEq, Eq, Structural)]
pub struct DisplaySettings {
    pub color: bool,
    pub unicode: bool,
}

impl Default for DisplaySettings {
    fn default() -> (s: DisplaySettings)
        ensures
            s == (DisplaySettings { color: true, unicode: true }),
    {
        DisplaySettings { color: true, unicode: true }
    }
}

/// Settings of the game rules.
#[derive(Copy, Clone, Debug, PartialEq, Eq, Structural)]
pub struct GameSettings {
    pub dealer: DealerMode,
    pub draw_from_stock_len: usize,
    pub tableaux_len: u8,
    pub take_from_foundation: bool,
}

impl GameSettings {
    /// The indices of the tableaux, `0..tableaux_len`.
    pub fn tableaux_indices(&self) -> (indices: Vec<u8>)
        ensures
            indices@ == Seq::new(self.tableaux_len as nat, |i: int| i as u8),
    {
        let mut indices: Vec<u8> = Vec::new();
        let mut i: u8 = 0;
        while i < self.tableaux_len
            invariant
                i <= self.tableaux_len,
                indices@ == Seq::new(i as nat, |j: int| j as u8),
            decreases self.tableaux_len - i,
        {
            indices.push(i);
            i = i + 1;
            assert(indices@ =~= Seq::new(i as nat, |j: int| j as u8));
        }
        indices
    }
}

impl Default for GameSettings {
    fn default() -> (s: GameSettings)
        ensures
            s == (GameSettings {
                dealer: DealerMode::Random,
                draw_from_stock_len: 3,
                tableaux_len: 7,
                take_from_foundation: true,
            }),
    {
        GameSettings {
            dealer: DealerMode::Random,
            draw_from_stock_len: 3,
            tableaux_len: 7,
            take_from_foundation: true,
        }
    }
}

/// All settings.
#[derive(Copy, Clone, Debug, PartialEq, Eq, Structural)]
pub struct Settings {
    pub display: DisplaySettings,
    pub game: GameSettings,
}

impl Default for Settings {
    fn default() -> (s: Settings)
        ensures
            s.display == (DisplaySettings { color: true, unicode: true }),
            s.game == (GameSettings {
                dealer: DealerMode::Random,
                draw_from_stock_len: 3,
                tableaux_len: 7,
                take_from_foundation: true,
            }),
    {
        Settings { display: DisplaySettings::default(), game: GameSettings::default() }
    }
}

} // verus!
