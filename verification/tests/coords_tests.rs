use chess_tui::coords::{cell_origin, parse_algebraic, screen_to_cell, to_chess_notation, Rect};

fn area_80x40() -> Rect {
    Rect::new(0, 0, 80, 40)
}

#[test]
fn screen_to_cell_inverts_cell_origin_everywhere() {
    let area = area_80x40();
    for row in 0u16..8 {
        for col in 0u16..8 {
            let (x, y) = cell_origin(area, row, col);
            assert_eq!(screen_to_cell(area, x, y), Some((row, col)));
        }
    }
}

#[test]
fn screen_to_cell_inverts_with_offset_area() {
    // An area that does not start at the origin and has odd padding.
    let area = Rect::new(13, 7, 55, 31);
    for row in 0u16..8 {
        for col in 0u16..8 {
            let (x, y) = cell_origin(area, row, col);
            assert_eq!(screen_to_cell(area, x, y), Some((row, col)));
            // Every point of the 5x3 cell block maps back too.
            assert_eq!(screen_to_cell(area, x + 4, y + 2), Some((row, col)));
        }
    }
}

#[test]
fn screen_to_cell_center_of_e2() {
    // 80x40 area: board block starts at (20, 8); cell (6, 4) starts at
    // (20 + 20, 8 + 18) = (40, 26) and its center is (42, 27).
    let area = area_80x40();
    assert_eq!(screen_to_cell(area, 42, 27), Some((6, 4)));
}

#[test]
fn screen_to_cell_rejects_points_outside_board_block() {
    let area = area_80x40();
    // Board block spans x in [20, 60) and y in [8, 32).
    assert_eq!(screen_to_cell(area, 19, 8), None);
    assert_eq!(screen_to_cell(area, 60, 8), None);
    assert_eq!(screen_to_cell(area, 20, 7), None);
    assert_eq!(screen_to_cell(area, 20, 32), None);
    assert_eq!(screen_to_cell(area, 0, 0), None);
    assert_eq!(screen_to_cell(area, 79, 39), None);
    // Boundary points just inside.
    assert_eq!(screen_to_cell(area, 20, 8), Some((0, 0)));
    assert_eq!(screen_to_cell(area, 59, 31), Some((7, 7)));
}

#[test]
fn screen_to_cell_rejects_undersized_area() {
    let area = Rect::new(0, 0, 30, 20);
    for x in 0u16..30 {
        for y in 0u16..20 {
            assert_eq!(screen_to_cell(area, x, y), None);
        }
    }
    // One dimension too small is enough to disable interaction.
    assert_eq!(screen_to_cell(Rect::new(0, 0, 39, 24), 10, 10), None);
    assert_eq!(screen_to_cell(Rect::new(0, 0, 40, 23), 10, 10), None);
}

#[test]
fn to_chess_notation_known_values() {
    assert_eq!(to_chess_notation(6, 4), "e2");
    assert_eq!(to_chess_notation(0, 0), "a8");
    assert_eq!(to_chess_notation(7, 7), "h1");
    assert_eq!(to_chess_notation(7, 0), "a1");
    assert_eq!(to_chess_notation(0, 7), "h8");
    assert_eq!(to_chess_notation(4, 4), "e4");
}

#[test]
fn algebraic_round_trip_everywhere() {
    for row in 0u16..8 {
        for col in 0u16..8 {
            let name = to_chess_notation(row, col);
            let mut chars = name.chars();
            let file_ch = chars.next().unwrap();
            let rank_ch = chars.next().unwrap();
            assert_eq!(chars.next(), None);
            assert_eq!(parse_algebraic(file_ch, rank_ch), Some((row, col)));
        }
    }
}

#[test]
fn parse_algebraic_rejects_out_of_range() {
    assert_eq!(parse_algebraic('i', '1'), None);
    assert_eq!(parse_algebraic('a', '9'), None);
    assert_eq!(parse_algebraic('a', '0'), None);
    assert_eq!(parse_algebraic('`', '1'), None);
    assert_eq!(parse_algebraic('A', '1'), None);
    assert_eq!(parse_algebraic('e', '2'), Some((6, 4)));
}
