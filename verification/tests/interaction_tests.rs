use chess_tui::app::App;
use chess_tui::coords::Rect;
use chess_tui::handler::{handle_key_events, handle_mouse_events, KeyInput, KeyStroke, MouseInput};
use chess_tui::model::{ColoredPiece, PieceKind, PlayerColor, SelectionState, Square};

fn area_80x40() -> Rect {
    Rect::new(0, 0, 80, 40)
}

/// Center of the 5x3 block of cell `(row, col)` in the 80x40 area,
/// whose board block starts at (20, 8).
fn center(row: u16, col: u16) -> MouseInput {
    MouseInput::LeftUp { column: 22 + 5 * col, row: 9 + 3 * row }
}

fn sq(row: u16, col: u16) -> Square {
    Square::new(row, col)
}

#[test]
fn quit_keys_set_the_flag() {
    let mut app = App::new();
    assert!(!app.should_quit);
    handle_key_events(KeyStroke { input: KeyInput::Char('x'), ctrl: false }, &mut app);
    assert!(!app.should_quit);
    handle_key_events(KeyStroke { input: KeyInput::Char('c'), ctrl: false }, &mut app);
    assert!(!app.should_quit);
    handle_key_events(KeyStroke { input: KeyInput::Esc, ctrl: false }, &mut app);
    assert!(app.should_quit);

    let mut app = App::new();
    handle_key_events(KeyStroke { input: KeyInput::Char('q'), ctrl: false }, &mut app);
    assert!(app.should_quit);

    let mut app = App::new();
    handle_key_events(KeyStroke { input: KeyInput::Char('c'), ctrl: true }, &mut app);
    assert!(app.should_quit);

    let mut app = App::new();
    handle_key_events(KeyStroke { input: KeyInput::Char('C'), ctrl: true }, &mut app);
    assert!(app.should_quit);
}

#[test]
fn click_selects_occupied_square_only() {
    let area = area_80x40();
    let mut app = App::new();
    // An empty square selects nothing.
    handle_mouse_events(center(4, 4), area, &mut app);
    assert_eq!(app.game_state.selection, SelectionState::Empty);
    // An occupied square becomes selected.
    handle_mouse_events(center(6, 4), area, &mut app);
    assert_eq!(app.game_state.selection, SelectionState::Selected(sq(6, 4)));
}

#[test]
fn click_outside_playable_area_clears_selection() {
    let area = area_80x40();
    let mut app = App::new();
    handle_mouse_events(center(6, 4), area, &mut app);
    assert_eq!(app.game_state.selection, SelectionState::Selected(sq(6, 4)));
    handle_mouse_events(MouseInput::LeftUp { column: 0, row: 0 }, area, &mut app);
    assert_eq!(app.game_state.selection, SelectionState::Empty);
}

#[test]
fn reselecting_same_square_is_idempotent() {
    let area = area_80x40();
    let mut app = App::new();
    handle_mouse_events(center(6, 4), area, &mut app);
    let first = app.game_state.selection;
    let dests_first = app.game.legal_destinations(sq(6, 4));
    handle_mouse_events(center(6, 4), area, &mut app);
    assert_eq!(app.game_state.selection, first);
    let dests_second = app.game.legal_destinations(sq(6, 4));
    assert_eq!(dests_first, dests_second);
    // The board itself is untouched.
    assert_eq!(
        app.game.piece_on(sq(6, 4)),
        Some(ColoredPiece { kind: PieceKind::Pawn, color: PlayerColor::White })
    );
}

#[test]
fn simple_move_scenario() {
    let area = area_80x40();
    let mut app = App::new();
    // Select the e2 pawn, then click e4.
    handle_mouse_events(center(6, 4), area, &mut app);
    assert_eq!(app.game_state.selection, SelectionState::Selected(sq(6, 4)));
    handle_mouse_events(center(4, 4), area, &mut app);
    assert_eq!(app.game_state.selection, SelectionState::Empty);
    assert_eq!(app.game.piece_on(sq(6, 4)), None);
    assert_eq!(
        app.game.piece_on(sq(4, 4)),
        Some(ColoredPiece { kind: PieceKind::Pawn, color: PlayerColor::White })
    );
}

#[test]
fn illegal_click_becomes_fresh_selection() {
    let area = area_80x40();
    let mut app = App::new();
    // Select the e2 pawn, then click the a2 pawn: not a destination,
    // occupied, so the selection moves there and nothing is played.
    handle_mouse_events(center(6, 4), area, &mut app);
    handle_mouse_events(center(6, 0), area, &mut app);
    assert_eq!(app.game_state.selection, SelectionState::Selected(sq(6, 0)));
    assert_eq!(
        app.game.piece_on(sq(6, 4)),
        Some(ColoredPiece { kind: PieceKind::Pawn, color: PlayerColor::White })
    );
    assert_eq!(
        app.game.piece_on(sq(6, 0)),
        Some(ColoredPiece { kind: PieceKind::Pawn, color: PlayerColor::White })
    );
}

#[test]
fn promotion_scenario_with_knight_choice() {
    let area = area_80x40();
    let mut app = App::new();
    // March the a-pawn to b7: 1. a4 b5 2. axb5 a6 3. bxa6 Bb7 4. axb7 Nc6.
    assert_eq!(app.game.apply(sq(6, 0), sq(4, 0), None), Ok(()));
    assert_eq!(app.game.apply(sq(1, 1), sq(3, 1), None), Ok(()));
    assert_eq!(app.game.apply(sq(4, 0), sq(3, 1), None), Ok(()));
    assert_eq!(app.game.apply(sq(1, 0), sq(2, 0), None), Ok(()));
    assert_eq!(app.game.apply(sq(3, 1), sq(2, 0), None), Ok(()));
    assert_eq!(app.game.apply(sq(0, 2), sq(1, 1), None), Ok(()));
    assert_eq!(app.game.apply(sq(2, 0), sq(1, 1), None), Ok(()));
    assert_eq!(app.game.apply(sq(0, 1), sq(2, 2), None), Ok(()));

    // Select the pawn on b7, then click the forward destination b8:
    // the promotion choice becomes pending.
    handle_mouse_events(center(1, 1), area, &mut app);
    assert_eq!(app.game_state.selection, SelectionState::Selected(sq(1, 1)));
    handle_mouse_events(center(0, 1), area, &mut app);
    assert_eq!(
        app.game_state.selection,
        SelectionState::PromotionPending(sq(1, 1), sq(0, 1))
    );
    // No move has been applied yet.
    assert_eq!(
        app.game.piece_on(sq(1, 1)),
        Some(ColoredPiece { kind: PieceKind::Pawn, color: PlayerColor::White })
    );

    // The Knight slot of the menu on cell (0, 1): the cell block starts
    // at (25, 8), the Knight glyph sits at (+1, +2) = (26, 10).
    handle_mouse_events(MouseInput::LeftUp { column: 26, row: 10 }, area, &mut app);
    assert_eq!(app.game_state.selection, SelectionState::Empty);
    assert_eq!(app.game.piece_on(sq(1, 1)), None);
    assert_eq!(
        app.game.piece_on(sq(0, 1)),
        Some(ColoredPiece { kind: PieceKind::Knight, color: PlayerColor::White })
    );
}

#[test]
fn promotion_menu_miss_resolves_to_empty() {
    let area = area_80x40();
    let mut app = App::new();
    assert_eq!(app.game.apply(sq(6, 0), sq(4, 0), None), Ok(()));
    assert_eq!(app.game.apply(sq(1, 1), sq(3, 1), None), Ok(()));
    assert_eq!(app.game.apply(sq(4, 0), sq(3, 1), None), Ok(()));
    assert_eq!(app.game.apply(sq(1, 0), sq(2, 0), None), Ok(()));
    assert_eq!(app.game.apply(sq(3, 1), sq(2, 0), None), Ok(()));
    assert_eq!(app.game.apply(sq(0, 2), sq(1, 1), None), Ok(()));
    assert_eq!(app.game.apply(sq(2, 0), sq(1, 1), None), Ok(()));
    assert_eq!(app.game.apply(sq(0, 1), sq(2, 2), None), Ok(()));

    handle_mouse_events(center(1, 1), area, &mut app);
    handle_mouse_events(center(0, 1), area, &mut app);
    assert_eq!(
        app.game_state.selection,
        SelectionState::PromotionPending(sq(1, 1), sq(0, 1))
    );
    // A click that misses all four slots drops the pending choice and
    // applies nothing.
    handle_mouse_events(center(4, 4), area, &mut app);
    assert_eq!(app.game_state.selection, SelectionState::Empty);
    assert_eq!(
        app.game.piece_on(sq(1, 1)),
        Some(ColoredPiece { kind: PieceKind::Pawn, color: PlayerColor::White })
    );
    assert_eq!(app.game.piece_on(sq(0, 1)), None);
}

#[test]
fn other_mouse_events_change_nothing() {
    let area = area_80x40();
    let mut app = App::new();
    handle_mouse_events(center(6, 4), area, &mut app);
    let before = app.game_state.selection;
    handle_mouse_events(MouseInput::Other, area, &mut app);
    assert_eq!(app.game_state.selection, before);
    assert!(!app.should_quit);
}

#[test]
fn game_state_notation_follows_selection() {
    let area = area_80x40();
    let mut app = App::new();
    assert_eq!(app.game_state.to_chess_notation(), None);
    handle_mouse_events(center(6, 4), area, &mut app);
    assert_eq!(app.game_state.to_chess_notation(), Some(String::from("e2")));
}
