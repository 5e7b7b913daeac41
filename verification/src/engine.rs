//! The game engine: the decisions that tie the game to the display, one key at a time. The
//! program around it reads the keys and draws what it asks for.

use vstd::prelude::*;

use crate::display::DisplayState;
use crate::input::{map_input, spec_map_input, Key};
use crate::model::area::AreaId;
use crate::model::card::Card;
use crate::model::dealer::{
    create_dealer, spec_auto_win_dealt, spec_dealt_from, Dealer, ModeDealer,
};
use crate::model::deck::spec_standard_deck;
use crate::model::game::{spec_applied, Action, Game};
use crate::model::settings::GameSettings;

verus! {

/// Errors of the engine.
#[derive(Debug)]
pub enum Error {
    /// Reading keys or writing to the terminal failed.
    IoError { message: String },
    /// The engine could not be built.
    GameEngineBuilderError { message: String },
}

impl Error {
    /// The error as displayed: `IO error: ` or `GameEngineBuilder: `, then the message.
    pub open spec fn spec_text(&self) -> Seq<char> {
        match self {
            Error::IoError { message } => "IO error: "@ + message@,
            Error::GameEngineBuilderError { message } => "GameEngineBuilder: "@ + message@,
        }
    }

    /// The error as displayed (see `spec_text`).
    pub fn text(&self) -> (s: String)
        ensures
            s@ == self.spec_text(),
    {
        let (prefix, message) = match self {
            Error::IoError { message } => ("IO error: ", message),
            Error::GameEngineBuilderError { message } => ("GameEngineBuilder: ", message),
        };
        let mut s = String::from_str(prefix);
        s.append(message.as_str());
        s
    }
}

/// A change asked of the game engine.
#[derive(Copy, Clone, Debug, Eq, PartialEq, Structural)]
pub enum Update {
    /// Apply an action to the game.
    Action(Action),
    /// Deal a new game.
    NewGame,
    /// Show another display state.
    State(DisplayState),
}

/// A drawing the engine asks for: the game in `state`, where `area_ids` changed.
#[derive(Debug)]
pub struct Refresh {
    pub state: DisplayState,
    pub area_ids: Vec<AreaId>,
}

/// The ids of `ids`, in a vector of their own.
fn copy_ids(ids: &Vec<AreaId>) -> (copy: Vec<AreaId>)
    ensures
        copy@ == ids@,
{
    let mut copy: Vec<AreaId> = Vec::new();
    let mut k: usize = 0;
    while k < ids.len()
        invariant
            k <= ids@.len(),
            copy@ == ids@.take(k as int),
        decreases ids@.len() - k,
    {
        copy.push(ids[k]);
        k = k + 1;
        assert(copy@ =~= ids@.take(k as int));
    }
    assert(ids@.take(ids@.len() as int) =~= ids@);
    copy
}

/// The state of a session: the rules, the dealer, the game being played (none before the first
/// deal and after asking for a new one) and what the display shows.
#[derive(Debug)]
pub struct GameEngine {
    pub settings: GameSettings,
    pub dealer: ModeDealer,
    pub game: Option<Game>,
    pub state: DisplayState,
}

impl GameEngine {
    /// The game, when there is one, is well formed.
    pub open spec fn wf(&self) -> bool {
        self.game matches Some(game) ==> game.wf()
    }

    /// A session on `settings`: no game dealt yet, playing, with the dealer of the settings'
    /// dealer mode.
    pub fn start(settings: GameSettings) -> (engine: GameEngine)
        ensures
            engine.wf(),
            engine.settings == settings,
            engine.game is None,
            engine.state == DisplayState::Playing,
            settings.dealer is AutoWin <==> engine.dealer is AutoWin,
            settings.dealer is InOrder <==> engine.dealer is InOrder,
            settings.dealer is Random <==> engine.dealer is Random,
    {
        let dealer = create_dealer(settings.dealer);
        GameEngine { settings, dealer, game: None, state: DisplayState::Playing }
    }

    /// Deals a game when there is none, with the dealer of the settings' dealer mode, and says
    /// whether it did: the new game must then be drawn before any key is read.
    pub fn deal_if_needed(&mut self) -> (dealt: bool)
        requires
            old(self).wf(),
        ensures
            final(self).wf(),
            dealt == old(self).game is None,
            final(self).settings == old(self).settings,
            final(self).state == old(self).state,
            final(self).dealer == old(self).dealer,
            final(self).game matches Some(game) && (dealt ==> {
                let settings = old(self).settings;
                &&& game.areas.spec_all_cards() == spec_standard_deck().to_multiset()
                &&& old(self).dealer is AutoWin ==> spec_auto_win_dealt(game, settings)
                &&& old(self).dealer is InOrder ==> spec_dealt_from(
                    game,
                    spec_standard_deck(),
                    settings,
                )
                &&& old(self).dealer is Random ==> exists|deck: Seq<Card>|
                    deck.to_multiset() == spec_standard_deck().to_multiset()
                        && #[trigger] spec_dealt_from(game, deck, settings)
            }),
            !dealt ==> final(self).game == old(self).game,
    {
        if self.game.is_none() {
            let game = self.dealer.deal_game(&self.settings);
            self.game = Some(game);
            true
        } else {
            false
        }
    }

    /// The update a key asks for in the current display state.
    pub open spec fn spec_update(&self, key: Option<Key>) -> Option<Update> {
        match key {
            Some(k) => spec_map_input(self.state, k),
            None => None,
        }
    }

    /// Whether the engine can take `key`: a key that moves the selection to an area names an
    /// area of the game.
    pub open spec fn spec_accepts(&self, key: Option<Key>) -> bool {
        self.spec_update(key) matches Some(Update::Action(Action::MoveTo(id))) ==> (
        self.game matches Some(game) ==> game.areas.spec_contains(id))
    }

    /// Whether the engine can take `key` (see `spec_accepts`).
    pub fn accepts(&self, key: Option<Key>) -> (b: bool)
        requires
            self.wf(),
        ensures
            b == self.spec_accepts(key),
    {
        let update = match key {
            Some(k) => map_input(self.state, k),
            None => None,
        };
        match update {
            Some(Update::Action(Action::MoveTo(id))) => match &self.game {
                Some(game) => game.areas.get_index(id).is_some(),
                None => true,
            },
            _ => true,
        }
    }

    /// Takes one key (`None` when the keys ran out) and returns the drawings to make, in order,
    /// and whether the session goes on. A key that asks for an action applies it to the game and,
    /// when that wins it, draws the game once more before opening the win message. A new game is
    /// dealt on the next call of `deal_if_needed`; nothing is drawn meanwhile. A change of display
    /// state is drawn. The session ends once the display state is `Quitting`.
    pub fn tick(&mut self, key: Option<Key>) -> (r: (Vec<Refresh>, bool))
        requires
            old(self).wf(),
            old(self).spec_accepts(key),
        ensures
            final(self).wf(),
            final(self).settings == old(self).settings,
            r.1 == (final(self).state != DisplayState::Quitting),
            match old(self).spec_update(key) {
                None => {
                    &&& final(self).game == old(self).game
                    &&& final(self).state == old(self).state
                    &&& r.0@.len() == 0
                },
                Some(Update::State(state)) => {
                    &&& final(self).game == old(self).game
                    &&& final(self).state == state
                    &&& r.0@.len() == if old(self).game is Some {
                        1int
                    } else {
                        0int
                    }
                    &&& r.0@.len() == 1 ==> r.0@[0].state == state && r.0@[0].area_ids@.len() == 0
                },
                Some(Update::NewGame) => {
                    &&& final(self).game is None
                    &&& final(self).state == DisplayState::Playing
                    &&& r.0@.len() == 0
                },
                Some(Update::Action(action)) => match old(self).game {
                    None => {
                        &&& final(self).game is None
                        &&& final(self).state == old(self).state
                        &&& r.0@.len() == 0
                    },
                    Some(before) => final(self).game matches Some(after) && {
                        let won = after.spec_is_win();
                        &&& after.areas.spec_same_areas(&before.areas)
                        &&& after.areas.spec_all_cards() == before.areas.spec_all_cards()
                        &&& spec_applied(before, after, action, r.0@[0].area_ids@)
                        &&& final(self).state == if won {
                            DisplayState::WinMessageOpen
                        } else {
                            old(self).state
                        }
                        &&& r.0@.len() == if won {
                            2int
                        } else {
                            1int
                        }
                        &&& r.0@[0].state == old(self).state
                        &&& won ==> r.0@[1].state == DisplayState::WinMessageOpen
                            && r.0@[1].area_ids@ == r.0@[0].area_ids@
                    },
                },
            },
    {
        let update = match key {
            Some(k) => map_input(self.state, k),
            None => None,
        };
        let mut refreshes: Vec<Refresh> = Vec::new();
        match update {
            Some(update) => {
                let area_ids = match update {
                    Update::Action(action) => match &mut self.game {
                        Some(game) => {
                            let area_ids = game.apply_action(action);
                            if game.is_win() {
                                refreshes.push(
                                    Refresh { state: self.state, area_ids: copy_ids(&area_ids) },
                                );
                                self.state = DisplayState::WinMessageOpen;
                            }
                            area_ids
                        },
                        None => Vec::new(),
                    },
                    Update::NewGame => {
                        self.game = None;
                        self.state = DisplayState::Playing;
                        Vec::new()
                    },
                    Update::State(state) => {
                        self.state = state;
                        Vec::new()
                    },
                };
                if self.game.is_some() {
                    refreshes.push(Refresh { state: self.state, area_ids });
                }
            },
            None => {},
        }
        let running = self.state != DisplayState::Quitting;
        (refreshes, running)
    }
}

} // verus!
