use klondike::display::blank::BlankWidget;
use klondike::display::card::{card_size, CardWidget, CardWidgetMode};
use klondike::display::escape::{
    clear_all_code, down_code, fg_code, goto_code, left_code, right_code, TermColor,
};
use klondike::display::format_str::FormattedString;
use klondike::display::frame::{double, repeat, single, FrameWidget, Title};
use klondike::display::game::{bounds_for_area, coords_for_area, GameWidget, GameWidgetState};
use klondike::display::DisplayState;
use klondike::model::dealer::{create_dealer, Dealer};
use klondike::model::settings::{DealerMode, GameSettings};
use klondike::display::geometry::{goto, point2, size2, Rect, SideOffsets};
use klondike::display::help::{description_style, key_style, reset_style, HelpItemKeys};
use klondike::display::win::WinWidget;
use klondike::model::area::AreaId;
use klondike::model::card::{Card, Rank, Suit};

const WHITE: &str = "\u{1b}[38;5;7m";

#[test]
fn escape_codes_match_the_terminal_sequences() {
    assert_eq!(goto_code(1, 1), "\u{1b}[1;1H");
    assert_eq!(goto_code(12, 3), "\u{1b}[3;12H");
    assert_eq!(down_code(1), "\u{1b}[1B");
    assert_eq!(left_code(8), "\u{1b}[8D");
    assert_eq!(right_code(15), "\u{1b}[15C");
    assert_eq!(fg_code(TermColor::White), WHITE);
    assert_eq!(fg_code(TermColor::Red), "\u{1b}[38;5;1m");
    assert_eq!(fg_code(TermColor::LightBlue), "\u{1b}[38;5;12m");
    assert_eq!(fg_code(TermColor::Reset), "\u{1b}[39m");
    assert_eq!(clear_all_code(), "\u{1b}[2J");
}

#[test]
fn goto_counts_cells_from_one() {
    assert_eq!(goto(point2(0, 0)), "\u{1b}[1;1H");
    assert_eq!(goto(point2(4, 9)), "\u{1b}[10;5H");
}

#[test]
fn repeat_repeats() {
    assert_eq!(repeat("ab", 3), "ababab");
    assert_eq!(repeat("─", 0), "");
}

#[test]
fn formatted_string_counts_content_only() {
    let s = FormattedString::of_content("ab")
        .push_formatting(WHITE)
        .push_content("═c");
    assert_eq!(s.len(), 4);
    assert_eq!(s.as_str(), format!("ab{}═c", WHITE));
    let t = FormattedString::new_with_formatting(WHITE).push_formatted_content(&s);
    assert_eq!(t.len(), 4);
    assert_eq!(FormattedString::default().len(), 0);
}

#[test]
fn plain_frame_is_drawn_line_by_line() {
    let style = single();
    let frame = FrameWidget {
        bounds: Rect::new(point2(0, 0), size2(4, 3)),
        top_title: None,
        bottom_title: None,
        frame_style: &style,
    };
    let step = "\u{1b}[1B\u{1b}[4D";
    let expected = format!(
        "\u{1b}[1;1H{w}┌─{w}─┐{step}{w}│\u{1b}[2C│{step}{w}└─{w}─┘",
        w = WHITE,
        step = step
    );
    assert_eq!(frame.fmt(), expected);
}

#[test]
fn centered_title_splits_the_filler() {
    let style = single();
    let frame = FrameWidget {
        bounds: Rect::new(point2(1, 1), size2(14, 2)),
        top_title: Some(Title::center(FormattedString::of_content("ab"))),
        bottom_title: Some(Title::right(FormattedString::of_content("z"))),
        frame_style: &style,
    };
    let step = "\u{1b}[1B\u{1b}[14D";
    let top = format!("──┤ ab{w} ├──", w = WHITE);
    let bottom = format!("─────┤ z{w} ├", w = WHITE);
    let expected = format!(
        "\u{1b}[2;2H{w}┌─{top}{w}─┐{step}{w}└─{bottom}{w}─┘",
        w = WHITE,
        top = top,
        step = step,
        bottom = bottom
    );
    assert_eq!(frame.fmt(), expected);
}

#[test]
fn title_wider_than_the_frame_is_kept_whole() {
    let style = double();
    let frame = FrameWidget {
        bounds: Rect::new(point2(0, 0), size2(6, 2)),
        top_title: Some(Title::left(FormattedString::of_content("long"))),
        bottom_title: None,
        frame_style: &style,
    };
    let text = frame.fmt();
    assert!(text.contains(&format!("╔═╡ long{} ╞{}═╗", WHITE, WHITE)));
}

#[test]
fn blank_widget_covers_its_bounds() {
    let blank = BlankWidget { bounds: Rect::new(point2(2, 3), size2(3, 2)) };
    let row = "   \u{1b}[1B\u{1b}[3D";
    assert_eq!(blank.fmt(), format!("\u{1b}[4;3H\u{1b}[39m{}{}", row, row));
    assert_eq!(blank.bounds(), Rect::new(point2(2, 3), size2(3, 2)));
}

#[test]
fn card_widget_shows_rank_and_suit() {
    let card = Card { suit: Suit::Hearts, rank: Rank::Queen };
    let widget = CardWidget {
        card: &card,
        origin: point2(2, 5),
        mode: CardWidgetMode::FullFaceUp,
    };
    assert_eq!(widget.bounds(), Rect::new(point2(2, 5), card_size()));
    let text = widget.fmt();
    assert!(text.starts_with("\u{1b}[7;4H"));
    assert!(text.contains("\u{1b}[6;3H"));
    assert!(text.contains("Q"));
    assert!(text.contains("\u{2665}"));
    assert!(text.contains("\u{1b}[38;5;1m"));
}

#[test]
fn face_down_card_hides_its_face() {
    let card = Card { suit: Suit::Spades, rank: Rank::Ace };
    let widget = CardWidget {
        card: &card,
        origin: point2(2, 0),
        mode: CardWidgetMode::FullFaceDown,
    };
    let text = widget.fmt();
    assert!(text.contains("░"));
    assert!(!text.contains("\u{2660}"));
}

#[test]
fn area_positions() {
    assert_eq!(coords_for_area(AreaId::Stock), point2(2, 0));
    assert_eq!(coords_for_area(AreaId::Talon), point2(13, 0));
    assert_eq!(coords_for_area(AreaId::Foundation(Suit::Diamonds)), point2(57, 0));
    assert_eq!(coords_for_area(AreaId::Tableaux(3)), point2(35, 5));
    let display = Rect::new(point2(0, 0), size2(80, 24));
    assert_eq!(
        bounds_for_area(AreaId::Stock, display),
        Rect::new(point2(2, 0), size2(10, 4))
    );
    assert_eq!(
        bounds_for_area(AreaId::Foundation(Suit::Clubs), display),
        Rect::new(point2(68, 0), size2(12, 4))
    );
    assert_eq!(
        bounds_for_area(AreaId::Tableaux(0), display),
        Rect::new(point2(2, 5), size2(10, 19))
    );
}

#[test]
fn rect_offsets() {
    let rect = Rect::new(point2(5, 5), size2(10, 8));
    let inner = rect.inner_rect(SideOffsets::new(1, 2, 3, 4));
    assert_eq!(inner, Rect::new(point2(9, 6), size2(4, 4)));
    let outer = inner.outer_rect(SideOffsets::new(1, 2, 3, 4));
    assert_eq!(outer, rect);
    assert_eq!(rect.max_x(), 15);
    assert_eq!(rect.max_y(), 13);
    let both = SideOffsets::new_all_same(1).combined(SideOffsets::new(0, 1, 2, 3));
    assert_eq!(both, SideOffsets::new(1, 2, 3, 4));
}

#[test]
fn help_keys_lengths() {
    assert_eq!(HelpItemKeys::Single("q").len(), 1);
    assert_eq!(HelpItemKeys::List(vec!["h", "←"]).len(), 5);
    assert_eq!(HelpItemKeys::Range("1", "7").len(), 7);
    assert_eq!(key_style(), "\u{1b}[38;5;6m");
    assert_eq!(reset_style(), "\u{1b}[39m");
    assert_eq!(description_style(), WHITE);
    assert_eq!(
        HelpItemKeys::List(vec!["h", "l"]).fmt(),
        "\u{1b}[38;5;6mh\u{1b}[39m / \u{1b}[38;5;6ml"
    );
}

#[test]
fn win_widget_congratulates() {
    let win = WinWidget { bounds: Rect::new(point2(0, 0), size2(80, 24)) };
    let text = win.fmt();
    assert!(text.contains("Congratulations!"));
    assert!(text.contains("New Game? (Y/N)"));
}

#[test]
fn game_widget_draws_everything_first_and_then_only_changes() {
    let settings = GameSettings {
        dealer: DealerMode::InOrder,
        draw_from_stock_len: 3,
        tableaux_len: 7,
        take_from_foundation: true,
    };
    let game = create_dealer(DealerMode::InOrder).deal_game(&settings);
    let bounds = Rect::new(point2(0, 0), size2(80, 24));
    let mut state = GameWidgetState::default();
    let none: Vec<AreaId> = Vec::new();
    let widget = GameWidget {
        area_ids: &none,
        bounds,
        game: &game,
        display_state: DisplayState::Playing,
    };
    assert!(widget.is_full_refresh_required(&state.cell));
    let first = widget.fmt(&mut state);
    assert!(first.starts_with(&clear_all_code()));
    assert!(first.contains("K"));
    assert_eq!(state.cell.bounds_cache.len(), 13);
    assert_eq!(state.cell.prev_bounds, Some(bounds));
    assert!(!widget.is_full_refresh_required(&state.cell));
    let second = widget.fmt(&mut state);
    assert!(second.is_empty());

    let help = GameWidget {
        area_ids: &none,
        bounds,
        game: &game,
        display_state: DisplayState::HelpMessageOpen,
    };
    let text = help.fmt(&mut state);
    assert!(text.starts_with(&clear_all_code()));
    assert_eq!(state.cell.prev_display_state, Some(DisplayState::HelpMessageOpen));
}

#[test]
fn game_widget_checks_that_it_fits() {
    let settings = GameSettings {
        dealer: DealerMode::InOrder,
        draw_from_stock_len: 3,
        tableaux_len: 7,
        take_from_foundation: true,
    };
    let game = create_dealer(DealerMode::InOrder).deal_game(&settings);
    let state = GameWidgetState::default();
    let none: Vec<AreaId> = Vec::new();
    let playing = GameWidget {
        area_ids: &none,
        bounds: Rect::new(point2(0, 0), size2(80, 24)),
        game: &game,
        display_state: DisplayState::Playing,
    };
    assert!(playing.is_drawable(&state));
    let tiny_help = GameWidget {
        area_ids: &none,
        bounds: Rect::new(point2(0, 0), size2(5, 3)),
        game: &game,
        display_state: DisplayState::HelpMessageOpen,
    };
    assert!(!tiny_help.is_drawable(&state));
    let tiny_win = GameWidget {
        area_ids: &none,
        bounds: Rect::new(point2(0, 0), size2(5, 3)),
        game: &game,
        display_state: DisplayState::WinMessageOpen,
    };
    assert!(!tiny_win.is_drawable(&state));
    let edge = GameWidget {
        area_ids: &none,
        bounds: Rect::new(point2(65500, 0), size2(100, 24)),
        game: &game,
        display_state: DisplayState::Playing,
    };
    assert!(!edge.is_drawable(&state));
}

#[test]
fn formatted_string_from_text() {
    let s = FormattedString::from(String::from("♠ten"));
    assert_eq!(s.len(), 4);
    assert_eq!(s.as_str(), "♠ten");
}
