use klondike::model::area::AreaId;
use klondike::model::card::{Card, Rank, Suit};
use klondike::model::dealer::{create_dealer, Dealer};
use klondike::model::game::{Action, Game};
use klondike::model::settings::{DealerMode, GameSettings};

fn settings(dealer: DealerMode) -> GameSettings {
    GameSettings {
        dealer,
        draw_from_stock_len: 3,
        tableaux_len: 7,
        take_from_foundation: true,
    }
}

fn deal(dealer: DealerMode) -> Game {
    let settings = settings(dealer);
    create_dealer(dealer).deal_game(&settings)
}

fn len_of(game: &Game, id: AreaId) -> usize {
    game.stack(id).unwrap().cards.len()
}

fn total_cards(game: &Game) -> usize {
    game.area_ids().into_iter().map(|id| len_of(game, id)).sum()
}

#[test]
fn in_order_deal_lays_out_the_table() {
    let game = deal(DealerMode::InOrder);
    let ids = game.area_ids();
    assert_eq!(ids.len(), 13);
    assert_eq!(ids[0], AreaId::Stock);
    assert_eq!(ids[1], AreaId::Talon);
    assert_eq!(ids[2], AreaId::Foundation(Suit::Spades));
    assert_eq!(ids[5], AreaId::Foundation(Suit::Clubs));
    assert_eq!(ids[6], AreaId::Tableaux(0));
    assert_eq!(ids[12], AreaId::Tableaux(6));

    assert_eq!(len_of(&game, AreaId::Stock), 24);
    assert_eq!(len_of(&game, AreaId::Talon), 0);
    for suit in [Suit::Spades, Suit::Hearts, Suit::Diamonds, Suit::Clubs] {
        assert_eq!(len_of(&game, AreaId::Foundation(suit)), 0);
    }
    for index in 0..7u8 {
        let stack = game.stack(AreaId::Tableaux(index)).unwrap();
        assert_eq!(stack.cards.len(), usize::from(index) + 1);
        assert_eq!(stack.details.face_up_len, 1);
    }
    assert_eq!(total_cards(&game), 52);
    assert!(!game.is_win());
}

#[test]
fn in_order_deal_puts_the_last_cards_of_the_deck_on_the_tableaux() {
    let game = deal(DealerMode::InOrder);
    let first = game.stack(AreaId::Tableaux(0)).unwrap();
    assert_eq!(first.cards[0], Card { suit: Suit::Clubs, rank: Rank::King });
    let second = game.stack(AreaId::Tableaux(1)).unwrap();
    assert_eq!(second.cards[0], Card { suit: Suit::Clubs, rank: Rank::Queen });
    assert_eq!(second.cards[1], Card { suit: Suit::Clubs, rank: Rank::Six });
    let stock = game.stack(AreaId::Stock).unwrap();
    assert_eq!(stock.cards[0], Card { suit: Suit::Spades, rank: Rank::Ace });
    assert_eq!(stock.cards[23], Card { suit: Suit::Hearts, rank: Rank::Jack });
}

#[test]
fn auto_win_deal_fills_the_foundations() {
    let game = deal(DealerMode::AutoWin);
    // Each foundation reports its first card, an Ace, as its top card.
    assert!(!game.is_win());
    assert_eq!(total_cards(&game), 52);
    for suit in [Suit::Spades, Suit::Hearts, Suit::Diamonds, Suit::Clubs] {
        let stack = game.stack(AreaId::Foundation(suit)).unwrap();
        assert_eq!(stack.cards.len(), 13);
        assert_eq!(stack.cards[12], Card { suit, rank: Rank::King });
    }
    assert_eq!(len_of(&game, AreaId::Stock), 0);
}

#[test]
fn random_deal_holds_every_card_once() {
    let game = deal(DealerMode::Random);
    let mut cards: Vec<Card> = Vec::new();
    for id in game.area_ids() {
        cards.extend_from_slice(game.stack(id).unwrap().cards);
    }
    cards.sort();
    cards.dedup();
    assert_eq!(cards.len(), 52);
    assert_eq!(len_of(&game, AreaId::Stock), 24);
}

#[test]
fn random_deal_shuffles_the_deck() {
    let in_order = deal(DealerMode::InOrder);
    let in_order_cards: Vec<Card> = in_order.area_ids().into_iter().flat_map(|id| in_order.stack(id).unwrap().cards.to_vec()).collect();
    let mut differs = false;
    for _ in 0..5 {
        let game = deal(DealerMode::Random);
        let cards: Vec<Card> = game.area_ids().into_iter().flat_map(|id| game.stack(id).unwrap().cards.to_vec()).collect();
        if cards != in_order_cards {
            differs = true;
        }
    }
    assert!(differs);
}

#[test]
fn activating_the_stock_draws_to_the_talon() {
    let mut game = deal(DealerMode::InOrder);
    assert_eq!(game.areas.selected().id(), AreaId::Stock);
    game.apply_action(Action::Activate);
    assert_eq!(len_of(&game, AreaId::Stock), 21);
    assert_eq!(len_of(&game, AreaId::Talon), 3);
    assert_eq!(total_cards(&game), 52);
    let talon = game.stack(AreaId::Talon).unwrap();
    let top = talon.cards[2];
    assert_eq!(top.suit, Suit::Hearts);
}

#[test]
fn actions_keep_every_card_in_play() {
    let mut game = deal(DealerMode::InOrder);
    let actions = [
        Action::Activate,
        Action::MoveRight,
        Action::Activate,
        Action::MoveToFoundation,
        Action::ReturnHeld,
        Action::MoveTo(AreaId::Tableaux(3)),
        Action::SelectMore,
        Action::SelectLess,
        Action::Activate,
        Action::MoveLeft,
        Action::Activate,
        Action::MoveBack,
        Action::Activate,
    ];
    for action in actions {
        game.apply_action(action);
        assert_eq!(total_cards(&game), 52);
        assert_eq!(game.area_ids().len(), 13);
    }
}

#[test]
fn move_to_selects_the_area() {
    let mut game = deal(DealerMode::InOrder);
    game.apply_action(Action::MoveTo(AreaId::Tableaux(4)));
    assert_eq!(game.areas.selected().id(), AreaId::Tableaux(4));
    game.apply_action(Action::MoveBack);
    assert_eq!(game.areas.selected().id(), AreaId::Stock);
}

#[test]
fn fewer_tableaux_take_fewer_cards() {
    let settings = GameSettings {
        dealer: DealerMode::InOrder,
        draw_from_stock_len: 1,
        tableaux_len: 3,
        take_from_foundation: false,
    };
    let game = create_dealer(DealerMode::InOrder).deal_game(&settings);
    assert_eq!(game.area_ids().len(), 9);
    assert_eq!(len_of(&game, AreaId::Stock), 46);
    assert_eq!(len_of(&game, AreaId::Tableaux(2)), 3);
    assert_eq!(total_cards(&game), 52);
}
