use chess_tui::engine::{IllegalMove, MyGame};
use chess_tui::model::{ColoredPiece, PieceKind, PlayerColor, Square};

fn sq(row: u16, col: u16) -> Square {
    Square::new(row, col)
}

#[test]
fn starting_position_pieces() {
    let game = MyGame::new();
    assert_eq!(
        game.piece_on(sq(6, 4)),
        Some(ColoredPiece { kind: PieceKind::Pawn, color: PlayerColor::White })
    );
    assert_eq!(
        game.piece_on(sq(0, 0)),
        Some(ColoredPiece { kind: PieceKind::Rook, color: PlayerColor::Black })
    );
    assert_eq!(
        game.piece_on(sq(7, 4)),
        Some(ColoredPiece { kind: PieceKind::King, color: PlayerColor::White })
    );
    assert_eq!(
        game.piece_on(sq(0, 3)),
        Some(ColoredPiece { kind: PieceKind::Queen, color: PlayerColor::Black })
    );
    assert_eq!(game.piece_on(sq(4, 4)), None);
    assert_eq!(game.piece_on(sq(3, 0)), None);
}

#[test]
fn pawn_moves_from_start() {
    let game = MyGame::new();
    // e2 may advance one or two squares, nothing else.
    assert!(game.is_legal(sq(6, 4), sq(5, 4), None));
    assert!(game.is_legal(sq(6, 4), sq(4, 4), None));
    assert!(!game.is_legal(sq(6, 4), sq(3, 4), None));
    assert!(!game.is_legal(sq(6, 4), sq(5, 3), None));
    assert!(!game.is_legal(sq(6, 4), sq(6, 0), None));
}

#[test]
fn legal_destinations_matches_is_legal() {
    let game = MyGame::new();
    for start_row in 0u16..8 {
        for start_col in 0u16..8 {
            let start = sq(start_row, start_col);
            let dests = game.legal_destinations(start);
            for row in 0u16..8 {
                for col in 0u16..8 {
                    let dest = sq(row, col);
                    assert_eq!(dests.contains(&dest), game.is_legal(start, dest, None));
                }
            }
        }
    }
}

#[test]
fn legal_destinations_of_e2_pawn() {
    let game = MyGame::new();
    let dests = game.legal_destinations(sq(6, 4));
    assert_eq!(dests.len(), 2);
    assert!(dests.contains(&sq(5, 4)));
    assert!(dests.contains(&sq(4, 4)));
}

#[test]
fn legal_destinations_of_blocked_rook_is_empty() {
    let game = MyGame::new();
    assert!(game.legal_destinations(sq(7, 0)).is_empty());
}

#[test]
fn legal_destinations_of_knight() {
    let game = MyGame::new();
    let dests = game.legal_destinations(sq(7, 1));
    assert_eq!(dests.len(), 2);
    assert!(dests.contains(&sq(5, 0)));
    assert!(dests.contains(&sq(5, 2)));
}

#[test]
fn apply_legal_move_updates_position() {
    let mut game = MyGame::new();
    assert_eq!(game.apply(sq(6, 4), sq(4, 4), None), Ok(()));
    assert_eq!(game.piece_on(sq(6, 4)), None);
    assert_eq!(
        game.piece_on(sq(4, 4)),
        Some(ColoredPiece { kind: PieceKind::Pawn, color: PlayerColor::White })
    );
}

#[test]
fn apply_illegal_move_is_rejected_and_changes_nothing() {
    let mut game = MyGame::new();
    assert_eq!(game.apply(sq(6, 4), sq(3, 4), None), Err(IllegalMove));
    assert_eq!(
        game.piece_on(sq(6, 4)),
        Some(ColoredPiece { kind: PieceKind::Pawn, color: PlayerColor::White })
    );
    assert_eq!(game.piece_on(sq(3, 4)), None);
}

#[test]
fn snapshot_agrees_with_piece_on() {
    let game = MyGame::new();
    let grid = game.snapshot();
    assert_eq!(grid.len(), 64);
    for row in 0u16..8 {
        for col in 0u16..8 {
            assert_eq!(grid[(row * 8 + col) as usize], game.piece_on(sq(row, col)));
        }
    }
}

#[test]
fn legal_mask_agrees_with_is_legal() {
    let game = MyGame::new();
    let mask = game.legal_mask(sq(6, 4));
    assert_eq!(mask.len(), 64);
    for row in 0u16..8 {
        for col in 0u16..8 {
            assert_eq!(mask[(row * 8 + col) as usize], game.is_legal(sq(6, 4), sq(row, col), None));
        }
    }
}

#[test]
fn promotion_requires_a_piece_choice() {
    // March the a-pawn through: 1. a4 b5 2. axb5 a6 3. bxa6 Bb7 4. axb7 Nc6.
    let mut game = MyGame::new();
    assert_eq!(game.apply(sq(6, 0), sq(4, 0), None), Ok(()));
    assert_eq!(game.apply(sq(1, 1), sq(3, 1), None), Ok(()));
    assert_eq!(game.apply(sq(4, 0), sq(3, 1), None), Ok(()));
    assert_eq!(game.apply(sq(1, 0), sq(2, 0), None), Ok(()));
    assert_eq!(game.apply(sq(3, 1), sq(2, 0), None), Ok(()));
    assert_eq!(game.apply(sq(0, 2), sq(1, 1), None), Ok(()));
    assert_eq!(game.apply(sq(2, 0), sq(1, 1), None), Ok(()));
    assert_eq!(game.apply(sq(0, 1), sq(2, 2), None), Ok(()));
    // The white pawn stands on b7; pushing to b8 without naming a piece
    // is illegal, with a promotion piece it is legal.
    assert_eq!(
        game.piece_on(sq(1, 1)),
        Some(ColoredPiece { kind: PieceKind::Pawn, color: PlayerColor::White })
    );
    assert!(!game.is_legal(sq(1, 1), sq(0, 1), None));
    assert!(game.is_legal(sq(1, 1), sq(0, 1), Some(PieceKind::Queen)));
    assert!(game.is_legal(sq(1, 1), sq(0, 1), Some(PieceKind::Knight)));
    // Capturing the rook on a8 promotes too; a diagonal push to the
    // empty c8 does not.
    assert!(game.is_legal(sq(1, 1), sq(0, 0), Some(PieceKind::Queen)));
    assert!(!game.is_legal(sq(1, 1), sq(0, 2), Some(PieceKind::Queen)));
}
