use klondike::model::area::any::AnyArea;
use klondike::model::area::area_list::AreaList;
use klondike::model::area::foundation::Foundation;
use klondike::model::area::stock::Stock;
use klondike::model::area::tableaux::Tableaux;
use klondike::model::area::talon::Talon;
use klondike::model::area::{move_selection, AreaId, Error, MoveResult};
use klondike::model::card::{Card, Rank, Suit};
use klondike::model::game::{Action, Game};
use klondike::model::settings::{DealerMode, GameSettings};

fn settings() -> GameSettings {
    GameSettings {
        dealer: DealerMode::InOrder,
        draw_from_stock_len: 3,
        tableaux_len: 2,
        take_from_foundation: true,
    }
}

fn card(suit: Suit, rank: Rank) -> Card {
    Card { suit, rank }
}

/// Stock, talon, the four foundations and two tableaux: the first holds a black seven over a
/// face-down card, the second a red eight.
fn small_game() -> Game {
    let settings = settings();
    let mut areas = vec![
        AnyArea::Stock(Stock::create(vec![card(Suit::Spades, Rank::Two)], &settings)),
        AnyArea::Talon(Talon::create(vec![], 0)),
    ];
    for suit in [Suit::Spades, Suit::Hearts, Suit::Diamonds, Suit::Clubs] {
        areas.push(AnyArea::Foundation(Foundation::create(suit, vec![], &settings)));
    }
    areas.push(AnyArea::Tableaux(Tableaux::create(
        0,
        1,
        vec![card(Suit::Hearts, Rank::King), card(Suit::Clubs, Rank::Seven)],
    )));
    areas.push(AnyArea::Tableaux(Tableaux::create(
        1,
        1,
        vec![card(Suit::Diamonds, Rank::Eight)],
    )));
    Game::new(AreaList::new(areas))
}

fn cards_of(game: &Game, id: AreaId) -> Vec<Card> {
    game.stack(id).unwrap().cards.to_vec()
}

#[test]
fn area_list_selects_its_first_area() {
    let game = small_game();
    assert_eq!(game.areas.selected().id(), AreaId::Stock);
    assert_eq!(game.last_area, AreaId::Stock);
    assert_eq!(game.areas.len(), 8);
}

#[test]
fn held_cards_move_onto_a_tableaux_that_takes_them() {
    let mut game = small_game();
    let ids = game.apply_action(Action::MoveTo(AreaId::Tableaux(0)));
    assert_eq!(ids, vec![AreaId::Stock, AreaId::Tableaux(0)]);
    let ids = game.apply_action(Action::Activate);
    assert_eq!(ids, vec![AreaId::Tableaux(0)]);
    assert!(game.areas.selected().is_held());
    let ids = game.apply_action(Action::MoveTo(AreaId::Tableaux(1)));
    assert_eq!(ids, vec![AreaId::Tableaux(0), AreaId::Tableaux(1)]);
    assert_eq!(
        cards_of(&game, AreaId::Tableaux(1)),
        vec![card(Suit::Diamonds, Rank::Eight), card(Suit::Clubs, Rank::Seven)]
    );
    assert_eq!(cards_of(&game, AreaId::Tableaux(0)), vec![card(Suit::Hearts, Rank::King)]);
    assert_eq!(game.last_area, AreaId::Tableaux(0));
}

#[test]
fn refused_move_keeps_the_cards_and_the_selection() {
    let mut game = small_game();
    game.apply_action(Action::MoveTo(AreaId::Tableaux(1)));
    game.apply_action(Action::Activate);
    let ids = game.apply_action(Action::MoveTo(AreaId::Tableaux(0)));
    assert!(ids.is_empty());
    assert_eq!(game.areas.selected().id(), AreaId::Tableaux(1));
    assert_eq!(cards_of(&game, AreaId::Tableaux(1)), vec![card(Suit::Diamonds, Rank::Eight)]);
    assert_eq!(game.last_area, AreaId::Stock);
    let ids = game.apply_action(Action::ReturnHeld);
    assert_eq!(ids, vec![AreaId::Tableaux(1)]);
    assert!(!game.areas.selected().is_held());
}

#[test]
fn held_cards_can_be_returned() {
    let mut game = small_game();
    game.apply_action(Action::MoveTo(AreaId::Tableaux(0)));
    game.apply_action(Action::Activate);
    game.apply_action(Action::MoveTo(AreaId::Tableaux(1)));
    let ids = game.apply_action(Action::ReturnHeld);
    assert!(!ids.is_empty());
    assert_eq!(game.areas.selected().id(), AreaId::Tableaux(0));
    assert_eq!(
        cards_of(&game, AreaId::Tableaux(0)),
        vec![card(Suit::Hearts, Rank::King), card(Suit::Clubs, Rank::Seven)]
    );
    assert_eq!(cards_of(&game, AreaId::Tableaux(1)), vec![card(Suit::Diamonds, Rank::Eight)]);
}

#[test]
fn nothing_to_return_changes_nothing() {
    let mut game = small_game();
    let ids = game.apply_action(Action::ReturnHeld);
    assert!(ids.is_empty());
    assert_eq!(game.areas.selected().id(), AreaId::Stock);
}

#[test]
fn selecting_more_and_less_only_in_a_tableaux() {
    let mut game = small_game();
    assert!(game.apply_action(Action::SelectMore).is_empty());
    game.apply_action(Action::MoveTo(AreaId::Tableaux(0)));
    assert!(game.apply_action(Action::SelectLess).is_empty());
    assert_eq!(cards_of(&game, AreaId::Tableaux(0)).len(), 2);
}

#[test]
fn moving_to_the_selected_area_reports_nothing() {
    let mut game = small_game();
    let ids = game.apply_action(Action::MoveTo(AreaId::Stock));
    assert!(ids.is_empty());
    assert_eq!(game.areas.selected().id(), AreaId::Stock);
}

#[test]
fn stock_draws_what_is_left_and_restocks() {
    let mut game = small_game();
    let ids = game.apply_action(Action::Activate);
    assert_eq!(ids, vec![AreaId::Stock, AreaId::Talon]);
    assert!(cards_of(&game, AreaId::Stock).is_empty());
    assert_eq!(cards_of(&game, AreaId::Talon), vec![card(Suit::Spades, Rank::Two)]);
    game.apply_action(Action::Activate);
    assert_eq!(cards_of(&game, AreaId::Stock), vec![card(Suit::Spades, Rank::Two)]);
    assert!(cards_of(&game, AreaId::Talon).is_empty());
}

#[test]
fn moves_to_the_right_skip_areas_that_refuse() {
    let mut game = small_game();
    let ids = game.apply_action(Action::MoveRight);
    assert_eq!(ids, vec![AreaId::Stock, AreaId::Tableaux(0)]);
    let ids = game.apply_action(Action::MoveLeft);
    assert_eq!(ids, vec![AreaId::Tableaux(0), AreaId::Stock]);
}

#[test]
fn areas_can_be_reached_for_changes() {
    let mut game = small_game();
    assert_eq!(game.areas.get_by_area_id_mut(AreaId::Tableaux(1)).id(), AreaId::Tableaux(1));
    assert_eq!(game.areas.selected_mut().id(), AreaId::Stock);
    assert_eq!(game.areas.get_by_index_mut(1).id(), AreaId::Talon);
    assert_eq!(game.areas.get_by_area_id(AreaId::Talon).id(), AreaId::Talon);
}

#[test]
fn area_error_texts() {
    assert_eq!(
        Error::InvalidCard { message: String::from("not a king") }.text(),
        "Invalid card: not a king"
    );
    assert_eq!(
        Error::NothingToSelect { message: String::from("Empty area") }.text(),
        "Nothing to select: Empty area"
    );
    assert_eq!(Error::AlreadyHeld.text(), "Cards already held");
    assert_eq!(Error::MinSelection.text(), "Minimum selection");
}

#[test]
fn moving_the_selection_between_two_areas() {
    let settings = settings();
    let mut stock = AnyArea::Stock(Stock::create(vec![], &settings));
    stock.select().unwrap();
    let tableaux = AnyArea::Tableaux(Tableaux::create(0, 1, vec![card(Suit::Hearts, Rank::Ace)]));
    match move_selection(stock, tableaux) {
        MoveResult::Moved(m) => {
            assert_eq!(m.selected.id(), AreaId::Tableaux(0));
            assert!(m.selected.is_selected());
            assert_eq!(m.unselected.id(), AreaId::Stock);
            assert!(!m.unselected.is_selected());
        }
        MoveResult::Unmoved(_, _) => panic!("the tableaux refused the selection"),
    }

    let mut stock = AnyArea::Stock(Stock::create(vec![], &settings));
    stock.select().unwrap();
    let talon = AnyArea::Talon(Talon::create(vec![], 0));
    match move_selection(stock, talon) {
        MoveResult::Moved(_) => panic!("an empty talon took the selection"),
        MoveResult::Unmoved(m, error) => {
            assert_eq!(m.selected.id(), AreaId::Stock);
            assert!(m.selected.is_selected());
            assert_eq!(m.unselected.id(), AreaId::Talon);
            assert!(matches!(error, Error::NothingToSelect { .. }));
        }
    }
}

#[test]
fn picking_up_and_putting_down_in_one_area() {
    let mut tableaux = AnyArea::Tableaux(Tableaux::create(
        2,
        1,
        vec![card(Suit::Clubs, Rank::Three), card(Suit::Hearts, Rank::Two)],
    ));
    tableaux.select().unwrap();
    assert!(tableaux.pick_up().is_ok());
    assert_eq!(tableaux.held_from(), Some(AreaId::Tableaux(2)));
    assert!(tableaux.pick_up().is_err());
    assert!(tableaux.put_down().is_ok());
    assert_eq!(tableaux.held_from(), None);
    assert!(tableaux.put_down().is_err());
    assert!(tableaux.select_more().is_err());
    assert!(tableaux.select_less().is_err());

    let settings = settings();
    let mut stock = AnyArea::Stock(Stock::create(vec![card(Suit::Clubs, Rank::Four)], &settings));
    stock.select().unwrap();
    assert!(stock.pick_up().is_err());
    assert_eq!(stock.held_from(), None);
}

#[test]
fn held_cards_move_past_areas_that_refuse_them() {
    let mut game = small_game();
    game.apply_action(Action::MoveTo(AreaId::Tableaux(0)));
    game.apply_action(Action::Activate);
    assert!(game.areas.selected().is_held());
    // Going left from the first tableaux, the foundations, the talon and the stock refuse the
    // black seven; the search wraps around to the red eight, which takes it.
    let ids = game.apply_action(Action::MoveLeft);
    assert_eq!(ids, vec![AreaId::Tableaux(0), AreaId::Tableaux(1)]);
    assert_eq!(game.areas.selected().id(), AreaId::Tableaux(1));
    assert_eq!(game.last_area, AreaId::Tableaux(0));
    assert_eq!(
        cards_of(&game, AreaId::Tableaux(1)),
        vec![card(Suit::Diamonds, Rank::Eight), card(Suit::Clubs, Rank::Seven)]
    );
    assert_eq!(cards_of(&game, AreaId::Tableaux(0)), vec![card(Suit::Hearts, Rank::King)]);
}

#[test]
fn the_areas_stay_in_order_over_a_run_of_actions() {
    let mut game = small_game();
    let ids = game.area_ids();
    let actions = [
        Action::MoveRight,
        Action::Activate,
        Action::MoveTo(AreaId::Tableaux(0)),
        Action::Activate,
        Action::MoveLeft,
        Action::Activate,
        Action::MoveBack,
        Action::SelectMore,
        Action::MoveTo(AreaId::Stock),
        Action::Activate,
        Action::ReturnHeld,
    ];
    for action in actions {
        game.apply_action(action);
        assert_eq!(game.area_ids(), ids);
        assert_eq!(game.areas.len(), 8);
        assert_eq!(game.areas.iter().len(), game.areas.len());
        let selected: Vec<bool> = game.areas.iter().iter().map(|area| area.is_selected()).collect();
        assert_eq!(selected.iter().filter(|b| **b).count(), 1);
        assert!(selected[game.areas.selected]);
    }
}
