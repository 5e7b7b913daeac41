use klondike::model::card::{Card, Color, Rank, Suit};
use klondike::model::deck::Deck;

#[test]
fn deck_has_fifty_two_cards_in_order() {
    let deck = Deck::new();
    let cards = deck.cards();
    assert_eq!(cards.len(), 52);
    assert_eq!(cards[0], Card { suit: Suit::Spades, rank: Rank::Ace });
    assert_eq!(cards[12], Card { suit: Suit::Spades, rank: Rank::King });
    assert_eq!(cards[13], Card { suit: Suit::Hearts, rank: Rank::Ace });
    assert_eq!(cards[51], Card { suit: Suit::Clubs, rank: Rank::King });
}

#[test]
fn suit_colors() {
    assert_eq!(Suit::Spades.color(), Color::Black);
    assert_eq!(Suit::Clubs.color(), Color::Black);
    assert_eq!(Suit::Hearts.color(), Color::Red);
    assert_eq!(Suit::Diamonds.color(), Color::Red);
}

#[test]
fn rank_labels() {
    assert_eq!(Rank::Ace.label(), "A");
    assert_eq!(Rank::Ten.label(), "10");
    assert_eq!(Rank::King.label(), "K");
}
