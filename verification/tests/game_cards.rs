use std::cmp::Ordering;

use klondike::game::card::{Card, Color, Rank, Suit};
use klondike::game::deck::Deck;
use klondike::game::focus::{AreaId, KlondikeGame as FocusGame, SelectionMode};
use klondike::game::klondike::{GameSelection, KlondikeGame};
use klondike::game::Error;
use klondike::model::settings::{DealerMode, GameSettings};

fn settings() -> GameSettings {
    GameSettings {
        dealer: DealerMode::InOrder,
        draw_from_stock_len: 3,
        tableaux_len: 7,
        take_from_foundation: true,
    }
}

#[test]
fn rank_new_checks_its_range() {
    assert_eq!(Rank::new(1), Ok(Rank(1)));
    assert_eq!(Rank::new(13), Ok(Rank(13)));
    assert_eq!(Rank::new(0), Err(Error::InvalidRank { value: 0 }));
    assert_eq!(Rank::new(14), Err(Error::InvalidRank { value: 14 }));
}

#[test]
fn invalid_rank_message() {
    assert_eq!(Error::InvalidRank { value: 0 }.message(), "invalid rank: 0");
    assert_eq!(Error::InvalidRank { value: 200 }.message(), "invalid rank: 200");
}

#[test]
fn rank_labels_and_order() {
    assert_eq!(Rank(1).label(), "A");
    assert_eq!(Rank(7).label(), "7");
    assert_eq!(Rank(10).label(), "10");
    assert_eq!(Rank(11).label(), "J");
    assert_eq!(Rank(12).label(), "Q");
    assert_eq!(Rank(13).label(), "K");
    assert_eq!(Rank(0).label(), "E");
    assert!(Rank(4).is_followed_by(Rank(5)));
    assert!(!Rank(5).is_followed_by(Rank(4)));
    assert!(Rank(1).is_ace());
    assert!(Rank(13).is_king());
    let values = Rank::values();
    assert_eq!(values.len(), 12);
    assert_eq!(values[0], Rank(1));
    assert_eq!(values[11], Rank(12));
}

#[test]
fn suits_and_cards() {
    assert_eq!(Suit::Hearts.color(), Color::Red);
    assert_eq!(Suit::Clubs.color(), Color::Black);
    assert_eq!(Suit::Spades.symbol(), "\u{2660}");
    assert_eq!(Suit::values().len(), 4);
    let card = Card { face_up: false, rank: Rank(3), suit: Suit::Diamonds };
    assert_eq!(card.color(), Color::Red);
    let up = card.face_up();
    assert!(up.face_up);
    assert!(!up.face_down().face_up);
}

#[test]
fn deck_deals_from_its_top() {
    let mut deck = Deck::new();
    assert_eq!(deck.cards.len(), 52);
    let first_suit = Suit::values()[0];
    assert_eq!(deck.cards[0], Card { face_up: false, rank: Rank(1), suit: first_suit });
    let top = deck.cards[51];
    assert_eq!(deck.deal_one(), Some(top));
    let next = deck.cards[48..51].to_vec();
    assert_eq!(deck.deal(3), next);
    assert_eq!(deck.cards.len(), 48);
    assert!(deck.deal(49).is_empty());
    assert_eq!(deck.cards.len(), 48);
    let rest = deck.deal_rest();
    assert_eq!(rest.len(), 48);
    assert!(deck.cards.is_empty());
    assert_eq!(deck.deal_one(), None);
}

#[test]
fn focus_game_deals_and_draws() {
    let mut deck = Deck::new();
    let mut game = FocusGame::new(&mut deck, &settings());
    assert!(deck.cards.is_empty());
    assert_eq!(game.areas.stock.cards.len(), 24);
    assert!(game.areas.talon.cards.is_empty());
    for (i, tableaux) in game.areas.tableaux.iter().enumerate() {
        assert_eq!(tableaux.cards.len(), i + 1);
        assert!(tableaux.cards[i].face_up);
    }
    assert_eq!(game.selection.target, AreaId::Stock);
    assert!(matches!(game.selection.mode, SelectionMode::Cards(1)));
    game.activate();
    assert_eq!(game.areas.stock.cards.len(), 21);
    assert_eq!(game.areas.talon.cards.len(), 3);
    assert!(game.areas.talon.cards.iter().all(|card| card.face_up));
    assert_eq!(game.stack(AreaId::Talon).cards.len(), 3);
}

#[test]
fn focus_game_moves_between_areas() {
    let mut deck = Deck::new();
    let mut game = FocusGame::new(&mut deck, &settings());
    game.move_to_tableaux(3);
    assert_eq!(game.selection.target, AreaId::Tableaux(3));
    game.move_to_stock();
    assert_eq!(game.selection.target, AreaId::Stock);
}

#[test]
fn klondike_game_deals_three_to_the_talon() {
    let mut deck = Deck::new();
    let game = KlondikeGame::new(&mut deck);
    assert!(deck.cards.is_empty());
    assert_eq!(game.stock.len(), 21);
    assert_eq!(game.talon.len(), 3);
    assert_eq!(game.talon_len, 3);
    assert!(game.talon.iter().all(|card| card.face_up));
    for (i, tableaux) in game.tableaux.iter().enumerate() {
        assert_eq!(tableaux.cards.len(), i + 1);
        assert_eq!(tableaux.revealed_len, 1);
    }
    assert!(game.foundation.iter().all(|pile| pile.is_empty()));
    assert_eq!(game.selection, GameSelection::Stock);
    assert!(game.holding.is_none());
    assert_eq!(game.stock().cards.len(), 21);
    assert_eq!(game.tableaux().len(), 7);
}

#[test]
fn cards_of_one_suit_are_ordered_by_rank() {
    let three = Card { face_up: true, rank: Rank(3), suit: Suit::Hearts };
    let nine = Card { face_up: false, rank: Rank(9), suit: Suit::Hearts };
    let other = Card { face_up: true, rank: Rank(3), suit: Suit::Spades };
    assert_eq!(three.partial_cmp(&nine), Some(Ordering::Less));
    assert_eq!(nine.partial_cmp(&three), Some(Ordering::Greater));
    assert_eq!(three.partial_cmp(&three), Some(Ordering::Equal));
    assert_eq!(three.partial_cmp(&other), None);
    assert!(three < nine);
    assert!(!(three < other) && !(three > other));
}

#[test]
fn picking_up_from_the_talon_and_putting_back() {
    let mut deck = Deck::new();
    let mut game = FocusGame::new(&mut deck, &settings());
    game.activate();
    game.move_to_talon();
    assert_eq!(game.selection.target, AreaId::Talon);
    let before = game.areas.talon.cards.clone();
    game.activate();
    assert_eq!(game.areas.talon.cards.len(), 2);
    assert!(matches!(game.selection.mode, SelectionMode::Held(_)));
    game.activate();
    assert_eq!(game.areas.talon.cards, before);
    assert!(matches!(game.selection.mode, SelectionMode::Cards(1)));
}

/// Every card of the focus game, face-blind, sorted, with the held cards.
fn cards_in_play(game: &FocusGame) -> Vec<(Suit, u8)> {
    let mut all: Vec<Card> = Vec::new();
    all.extend(game.areas.stock.cards.iter().copied());
    all.extend(game.areas.talon.cards.iter().copied());
    for foundation in game.areas.foundation.iter() {
        all.extend(foundation.cards.iter().copied());
    }
    for tableaux in game.areas.tableaux.iter() {
        all.extend(tableaux.cards.iter().copied());
    }
    if let SelectionMode::Held(held) = &game.selection.mode {
        all.extend(held.cards.iter().copied());
    }
    let mut keys: Vec<(Suit, u8)> = all.iter().map(|card| (card.suit, card.rank.0)).collect();
    keys.sort_by_key(|(suit, rank)| (suit.index(), *rank));
    keys
}

#[test]
fn activating_keeps_every_card_in_play() {
    let mut deck = Deck::new();
    let mut game = FocusGame::new(&mut deck, &settings());
    let start = cards_in_play(&game);
    assert_eq!(start.len(), 52);
    // Eight draws empty the stock, the ninth activation restocks and the tenth draws again.
    for _ in 0..10 {
        game.activate();
        assert_eq!(cards_in_play(&game), start);
    }
    game.move_to_talon();
    game.activate();
    assert!(matches!(game.selection.mode, SelectionMode::Held(_)));
    assert_eq!(cards_in_play(&game), start);
    game.activate();
    assert_eq!(cards_in_play(&game), start);
    assert_eq!(game.selection.target, AreaId::Talon);
}
