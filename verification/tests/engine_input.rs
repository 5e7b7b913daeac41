use klondike::display::DisplayState;
use klondike::engine::{GameEngine, Update};
use klondike::input::{handle_help_input, handle_playing_input, handle_win_input, map_input, Key};
use klondike::model::area::any::AnyArea;
use klondike::model::area::area_list::AreaList;
use klondike::model::area::foundation::Foundation;
use klondike::model::area::stock::Stock;
use klondike::model::area::tableaux::Tableaux;
use klondike::model::area::talon::Talon;
use klondike::model::area::AreaId;
use klondike::model::card::{Card, Rank, Suit};
use klondike::model::game::{Action, Game};
use klondike::model::settings::{DealerMode, GameSettings};

fn settings(dealer: DealerMode) -> GameSettings {
    GameSettings {
        dealer,
        draw_from_stock_len: 3,
        tableaux_len: 7,
        take_from_foundation: true,
    }
}

/// A game the engine counts as won: each foundation reports a King as its top card.
fn won_game(settings: &GameSettings) -> Game {
    let mut areas = vec![
        AnyArea::Stock(Stock::create(vec![], settings)),
        AnyArea::Talon(Talon::create(vec![], 0)),
    ];
    for suit in [Suit::Spades, Suit::Hearts, Suit::Diamonds, Suit::Clubs] {
        let king = Card { suit, rank: Rank::King };
        areas.push(AnyArea::Foundation(Foundation::create(suit, vec![king], settings)));
    }
    for index in 0..7u8 {
        areas.push(AnyArea::Tableaux(Tableaux::create(index, 0, vec![])));
    }
    Game::new(AreaList::new(areas))
}

#[test]
fn playing_keys() {
    assert_eq!(
        handle_playing_input(Key::Char('q')),
        Some(Update::State(DisplayState::Quitting))
    );
    assert_eq!(
        handle_playing_input(Key::Char('?')),
        Some(Update::State(DisplayState::HelpMessageOpen))
    );
    assert_eq!(
        handle_playing_input(Key::Char('s')),
        Some(Update::Action(Action::MoveTo(AreaId::Stock)))
    );
    assert_eq!(
        handle_playing_input(Key::Char('t')),
        Some(Update::Action(Action::MoveTo(AreaId::Talon)))
    );
    assert_eq!(
        handle_playing_input(Key::Char('f')),
        Some(Update::Action(Action::MoveToFoundation))
    );
    assert_eq!(
        handle_playing_input(Key::Char('h')),
        Some(Update::State(DisplayState::HelpMessageOpen))
    );
    assert_eq!(handle_playing_input(Key::Left), Some(Update::Action(Action::MoveLeft)));
    assert_eq!(handle_playing_input(Key::Char('j')), Some(Update::Action(Action::SelectLess)));
    assert_eq!(handle_playing_input(Key::Up), Some(Update::Action(Action::SelectMore)));
    assert_eq!(handle_playing_input(Key::Right), Some(Update::Action(Action::MoveRight)));
    assert_eq!(handle_playing_input(Key::Char('-')), Some(Update::Action(Action::MoveBack)));
    assert_eq!(handle_playing_input(Key::Esc), Some(Update::Action(Action::ReturnHeld)));
    assert_eq!(handle_playing_input(Key::Char(' ')), Some(Update::Action(Action::Activate)));
    assert_eq!(handle_playing_input(Key::Char('\n')), Some(Update::Action(Action::Activate)));
    assert_eq!(
        handle_playing_input(Key::Char('1')),
        Some(Update::Action(Action::MoveTo(AreaId::Tableaux(0))))
    );
    assert_eq!(
        handle_playing_input(Key::Char('9')),
        Some(Update::Action(Action::MoveTo(AreaId::Tableaux(8))))
    );
    assert_eq!(
        handle_playing_input(Key::F(1)),
        Some(Update::Action(Action::MoveTo(AreaId::Foundation(Suit::Spades))))
    );
    assert_eq!(
        handle_playing_input(Key::F(4)),
        Some(Update::Action(Action::MoveTo(AreaId::Foundation(Suit::Clubs))))
    );
    assert_eq!(handle_playing_input(Key::F(5)), None);
    assert_eq!(handle_playing_input(Key::Char('0')), None);
    assert_eq!(handle_playing_input(Key::Char('x')), None);
    assert_eq!(handle_playing_input(Key::Other), None);
}

#[test]
fn help_and_win_keys() {
    assert_eq!(
        handle_help_input(Key::Char('x')),
        Some(Update::State(DisplayState::Playing))
    );
    assert_eq!(handle_win_input(Key::Char('y')), Some(Update::NewGame));
    assert_eq!(
        handle_win_input(Key::Char('n')),
        Some(Update::State(DisplayState::Quitting))
    );
    assert_eq!(handle_win_input(Key::Char('q')), None);
    assert_eq!(map_input(DisplayState::Quitting, Key::Char('q')), None);
    assert_eq!(
        map_input(DisplayState::HelpMessageOpen, Key::Esc),
        Some(Update::State(DisplayState::Playing))
    );
}

#[test]
fn engine_deals_once() {
    let mut engine = GameEngine::start(settings(DealerMode::InOrder));
    assert!(engine.game.is_none());
    assert_eq!(engine.state, DisplayState::Playing);
    assert!(engine.deal_if_needed());
    assert!(!engine.deal_if_needed());
    assert!(engine.game.is_some());
}

#[test]
fn engine_quits_on_q() {
    let mut engine = GameEngine::start(settings(DealerMode::InOrder));
    engine.deal_if_needed();
    let (refreshes, running) = engine.tick(Some(Key::Char('q')));
    assert!(!running);
    assert_eq!(refreshes.len(), 1);
    assert_eq!(refreshes[0].state, DisplayState::Quitting);
    assert!(refreshes[0].area_ids.is_empty());
}

#[test]
fn engine_opens_and_closes_help() {
    let mut engine = GameEngine::start(settings(DealerMode::InOrder));
    engine.deal_if_needed();
    let (refreshes, running) = engine.tick(Some(Key::Char('?')));
    assert!(running);
    assert_eq!(engine.state, DisplayState::HelpMessageOpen);
    assert_eq!(refreshes.len(), 1);
    let (refreshes, running) = engine.tick(Some(Key::Char('z')));
    assert!(running);
    assert_eq!(engine.state, DisplayState::Playing);
    assert_eq!(refreshes[0].state, DisplayState::Playing);
}

#[test]
fn engine_ignores_unmapped_and_missing_keys() {
    let mut engine = GameEngine::start(settings(DealerMode::InOrder));
    engine.deal_if_needed();
    let (refreshes, running) = engine.tick(None);
    assert!(running);
    assert!(refreshes.is_empty());
    let (refreshes, running) = engine.tick(Some(Key::Char('x')));
    assert!(running);
    assert!(refreshes.is_empty());
}

#[test]
fn engine_applies_actions() {
    let mut engine = GameEngine::start(settings(DealerMode::InOrder));
    engine.deal_if_needed();
    let (refreshes, running) = engine.tick(Some(Key::Char(' ')));
    assert!(running);
    assert_eq!(refreshes.len(), 1);
    assert_eq!(refreshes[0].state, DisplayState::Playing);
    assert!(refreshes[0].area_ids.contains(&AreaId::Stock));
    assert!(refreshes[0].area_ids.contains(&AreaId::Talon));
    let game = engine.game.as_ref().unwrap();
    assert_eq!(game.stack(AreaId::Talon).unwrap().cards.len(), 3);
}

#[test]
fn engine_refuses_missing_tableaux() {
    let mut engine = GameEngine::start(settings(DealerMode::InOrder));
    engine.deal_if_needed();
    assert!(engine.accepts(Some(Key::Char('7'))));
    assert!(!engine.accepts(Some(Key::Char('9'))));
    assert!(engine.accepts(Some(Key::Char('q'))));
    assert!(engine.accepts(None));
}

#[test]
fn engine_announces_a_win_and_deals_again() {
    let settings = settings(DealerMode::InOrder);
    let mut engine = GameEngine::start(settings);
    engine.game = Some(won_game(&settings));
    let (refreshes, running) = engine.tick(Some(Key::Char('t')));
    assert!(running);
    assert_eq!(refreshes.len(), 2);
    assert_eq!(refreshes[0].state, DisplayState::Playing);
    assert_eq!(refreshes[1].state, DisplayState::WinMessageOpen);
    assert_eq!(engine.state, DisplayState::WinMessageOpen);

    let (refreshes, running) = engine.tick(Some(Key::Char('y')));
    assert!(running);
    assert!(refreshes.is_empty());
    assert!(engine.game.is_none());
    assert_eq!(engine.state, DisplayState::Playing);
    assert!(engine.deal_if_needed());
}

#[test]
fn engine_quits_from_the_win_message() {
    let settings = settings(DealerMode::InOrder);
    let mut engine = GameEngine::start(settings);
    engine.game = Some(won_game(&settings));
    engine.tick(Some(Key::Char('t')));
    let (_, running) = engine.tick(Some(Key::Char('n')));
    assert!(!running);
    assert_eq!(engine.state, DisplayState::Quitting);
}

#[test]
fn engine_deals_with_the_dealer_of_its_settings() {
    let mut auto_win = GameEngine::start(settings(DealerMode::AutoWin));
    assert!(auto_win.deal_if_needed());
    let game = auto_win.game.as_ref().unwrap();
    let foundation = game.stack(AreaId::Foundation(Suit::Hearts)).unwrap();
    assert_eq!(foundation.cards.len(), 13);
    assert_eq!(foundation.cards[0], Card { suit: Suit::Hearts, rank: Rank::Ace });
    assert!(game.stack(AreaId::Stock).unwrap().cards.is_empty());

    let mut in_order = GameEngine::start(settings(DealerMode::InOrder));
    assert!(in_order.deal_if_needed());
    let game = in_order.game.as_ref().unwrap();
    assert_eq!(game.stack(AreaId::Stock).unwrap().cards.len(), 24);
    assert_eq!(
        game.stack(AreaId::Tableaux(0)).unwrap().cards[0],
        Card { suit: Suit::Clubs, rank: Rank::King }
    );
    assert!(!in_order.deal_if_needed());

    let mut random = GameEngine::start(settings(DealerMode::Random));
    assert!(random.deal_if_needed());
    let game = random.game.as_ref().unwrap();
    assert_eq!(game.stack(AreaId::Stock).unwrap().cards.len(), 24);
    assert_eq!(game.stack(AreaId::Tableaux(6)).unwrap().cards.len(), 7);
}
