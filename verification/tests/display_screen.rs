use klondike::display::coords::Coords;
use klondike::display::screen::{ColorPair, KlondikeDisplay, Print};
use klondike::display::stack::selector::{draw_horizontal_selector, draw_vertical_selector};
use klondike::display::stack::{draw_horizontal_card_stack, draw_vertical_card_stack};
use klondike::game::card::{Card, Rank, Suit};
use klondike::game::table::CardStack;

fn view(prints: &[Print]) -> Vec<(i32, i32, String, ColorPair)> {
    prints
        .iter()
        .map(|p| (p.y, p.x, p.text.clone(), p.color))
        .collect()
}

fn frame(x: i32, y: i32) -> Vec<(i32, i32, String, ColorPair)> {
    vec![
        (y, x, "╭────────╮".to_string(), ColorPair::Default),
        (y + 1, x, "│        │".to_string(), ColorPair::Default),
        (y + 2, x, "│        │".to_string(), ColorPair::Default),
        (y + 3, x, "╰────────╯".to_string(), ColorPair::Default),
    ]
}

#[test]
fn color_pair_numbers() {
    assert_eq!(ColorPair::Default.number(), 1);
    assert_eq!(ColorPair::CardBlack.number(), 2);
    assert_eq!(ColorPair::CardRed.number(), 3);
    assert_eq!(ColorPair::CardBack.number(), 4);
}

#[test]
fn card_frame_is_four_lines() {
    let mut display = KlondikeDisplay::init();
    display.draw_card_frame(Coords::from_xy(3, 5));
    assert_eq!(view(&display.refresh()), frame(3, 5));
    assert!(display.refresh().is_empty());
}

#[test]
fn face_up_card_shows_rank_and_suit() {
    let mut display = KlondikeDisplay::init();
    let card = Card { face_up: true, rank: Rank(10), suit: Suit::Hearts };
    display.draw_card(Coords::from_xy(0, 0), &card);
    let mut expected = frame(0, 0);
    expected.push((1, 2, "10".to_string(), ColorPair::CardRed));
    expected.push((1, 7, "\u{2665}".to_string(), ColorPair::CardRed));
    expected.push((2, 2, "\u{2665}".to_string(), ColorPair::CardRed));
    expected.push((2, 6, "10".to_string(), ColorPair::CardRed));
    assert_eq!(view(&display.refresh()), expected);

    let ace = Card { face_up: true, rank: Rank(1), suit: Suit::Spades };
    display.draw_card(Coords::from_xy(10, 1), &ace);
    let prints = view(&display.refresh());
    assert_eq!(prints[7], (3, 17, "A".to_string(), ColorPair::CardBlack));
}

#[test]
fn face_down_card_shows_its_back() {
    let mut display = KlondikeDisplay::init();
    let card = Card { face_up: false, rank: Rank(4), suit: Suit::Clubs };
    display.draw_card(Coords::from_xy(2, 2), &card);
    let mut expected = frame(2, 2);
    expected.push((3, 4, "░░░░░░".to_string(), ColorPair::CardBack));
    expected.push((4, 4, "░░░░░░".to_string(), ColorPair::CardBack));
    assert_eq!(view(&display.refresh()), expected);
}

#[test]
fn horizontal_stack_fans_to_the_right() {
    let pile = [Card { face_up: false, rank: Rank(2), suit: Suit::Clubs }];
    let fanned = [
        Card { face_up: true, rank: Rank(3), suit: Suit::Clubs },
        Card { face_up: true, rank: Rank(4), suit: Suit::Clubs },
    ];
    let mut display = KlondikeDisplay::init();
    display.draw_horizontal_card_stack(
        Coords::from_xy(0, 0),
        &CardStack { pile: &pile, fanned: &fanned },
    );
    let prints = view(&display.refresh());
    assert_eq!(prints.len(), 4 + 8 + 8);
    assert_eq!(prints[0].1, 0);
    assert_eq!(prints[4].1, 1);
    assert_eq!(prints[12].1, 5);

    display.draw_horizontal_card_stack(Coords::from_xy(0, 0), &CardStack { pile: &pile, fanned: &[] });
    let prints = view(&display.refresh());
    assert_eq!(prints.len(), 4 + 2);
    assert_eq!(prints[0].1, 0);

    let two = [pile[0], pile[0]];
    display.draw_horizontal_card_stack(Coords::from_xy(0, 0), &CardStack { pile: &two, fanned: &[] });
    let prints = view(&display.refresh());
    assert_eq!(prints.len(), 4 + 4 + 2);
    assert_eq!(prints[4].1, 1);
}

#[test]
fn vertical_stack_fans_downwards() {
    let fanned = [
        Card { face_up: true, rank: Rank(13), suit: Suit::Diamonds },
        Card { face_up: true, rank: Rank(12), suit: Suit::Spades },
    ];
    let mut display = KlondikeDisplay::init();
    display.draw_vertical_card_stack(Coords::from_xy(4, 1), &CardStack { pile: &[], fanned: &fanned });
    let prints = view(&display.refresh());
    assert_eq!(prints.len(), 16);
    assert_eq!((prints[0].0, prints[0].1), (1, 4));
    assert_eq!((prints[8].0, prints[8].1), (3, 4));
    assert_eq!(prints[12].3, ColorPair::CardBlack);
    display.draw_vertical_card_stack(Coords::from_xy(4, 1), &CardStack { pile: &[], fanned: &[] });
    assert!(display.refresh().is_empty());
}

#[test]
fn horizontal_selector_brackets_its_cells() {
    let mut display = KlondikeDisplay::init();
    draw_horizontal_selector(&mut display, Coords::from_xy(2, 7), 4);
    assert_eq!(
        view(&display.refresh()),
        vec![
            (7, 2, "╘".to_string(), ColorPair::Default),
            (7, 3, "═".to_string(), ColorPair::Default),
            (7, 4, "═".to_string(), ColorPair::Default),
            (7, 5, "╛".to_string(), ColorPair::Default),
        ]
    );
    draw_horizontal_selector(&mut display, Coords::from_xy(2, 7), 1);
    assert_eq!(
        view(&display.refresh()),
        vec![
            (7, 2, "╘".to_string(), ColorPair::Default),
            (7, 2, "╛".to_string(), ColorPair::Default),
        ]
    );
}

#[test]
fn vertical_selector_brackets_its_cells() {
    let mut display = KlondikeDisplay::init();
    draw_vertical_selector(&mut display, Coords::from_xy(1, 1), 3);
    assert_eq!(
        view(&display.refresh()),
        vec![
            (1, 1, "╓".to_string(), ColorPair::Default),
            (2, 1, "║".to_string(), ColorPair::Default),
            (3, 1, "╙".to_string(), ColorPair::Default),
        ]
    );
}

#[test]
fn free_stack_drawings_match_the_display_methods() {
    let pile = [Card { face_up: true, rank: Rank(5), suit: Suit::Spades }];
    let stack = CardStack { pile: &pile, fanned: &[] };
    let mut a = KlondikeDisplay::init();
    let mut b = KlondikeDisplay::init();
    draw_horizontal_card_stack(&mut a, Coords::from_xy(3, 3), &stack);
    b.draw_horizontal_card_stack(Coords::from_xy(3, 3), &stack);
    assert_eq!(view(&a.refresh()), view(&b.refresh()));
    draw_vertical_card_stack(&mut a, Coords::from_xy(3, 3), &stack);
    b.draw_vertical_card_stack(Coords::from_xy(3, 3), &stack);
    let drawn = view(&a.refresh());
    assert_eq!(drawn.len(), 8);
    assert_eq!(drawn, view(&b.refresh()));
}
