//! Coordinate mapping between screen space, board cells and algebraic
//! notation.
//!
//! The board is drawn as a fixed 40x24 block of character cells (8x8 board
//! cells of 5x3 characters each), centered inside the render target.  All
//! conversions here are pure and, where the board geometry requires it,
//! exactly invertible.

use vstd::prelude::*;
use vstd::string::StringExecFns;

verus! {

/// A rectangle of character cells on the screen, in absolute coordinates.
#[derive(Clone, Copy, Debug, PartialEq, Eq, Structural)]
pub struct Rect {
    pub x: u16,
    pub y: u16,
    pub width: u16,
    pub height: u16,
}

impl Rect {
    /// A rectangle is well formed when it stays inside the `u16` plane.
    pub open spec fn wf(self) -> bool {
        self.x + self.width <= u16::MAX && self.y + self.height <= u16::MAX
    }

    pub fn new(x: u16, y: u16, width: u16, height: u16) -> (r: Rect)
        requires
            x + width <= u16::MAX,
            y + height <= u16::MAX,
        ensures
            r == (Rect { x, y, width, height }),
            r.wf(),
    {
        Rect { x, y, width, height }
    }
}

/// The board needs at least 40 columns and 24 rows of characters; below
/// that, rendering and pointer interaction are disabled.
pub open spec fn area_fits(area: Rect) -> bool {
    area.width >= 40 && area.height >= 24
}

/// Leftmost character column of the centered 40-column board block.
pub open spec fn board_origin_x(area: Rect) -> int {
    area.x + (area.width - 40) / 2
}

/// Topmost character row of the centered 24-row board block.
pub open spec fn board_origin_y(area: Rect) -> int {
    area.y + (area.height - 24) / 2
}

/// Leftmost character column of board cell column `col`.
pub open spec fn cell_origin_x(area: Rect, col: int) -> int {
    board_origin_x(area) + 5 * col
}

/// Topmost character row of board cell row `row`.
pub open spec fn cell_origin_y(area: Rect, row: int) -> int {
    board_origin_y(area) + 3 * row
}

/// Whether the screen point `(x, y)` lies inside the centered 40x24
/// board block (which exists only when the area fits it).
pub open spec fn in_board(area: Rect, x: int, y: int) -> bool {
    area_fits(area) && board_origin_x(area) <= x < board_origin_x(area) + 40
        && board_origin_y(area) <= y < board_origin_y(area) + 24
}

/// Board cell column of a screen point inside the board block.
pub open spec fn col_of(area: Rect, x: int) -> int {
    (x - board_origin_x(area)) / 5
}

/// Board cell row of a screen point inside the board block.
pub open spec fn row_of(area: Rect, y: int) -> int {
    (y - board_origin_y(area)) / 3
}

/// Whether the screen point is the visual center of its 5x3 board cell,
/// where piece glyphs and destination markers are drawn.
pub open spec fn is_cell_center(area: Rect, x: int, y: int) -> bool {
    (x - board_origin_x(area)) % 5 == 2 && (y - board_origin_y(area)) % 3 == 1
}

/// Whether the screen point lies in the 5x3 character block of board
/// cell `(row, col)`.
pub open spec fn in_cell_block(area: Rect, row: int, col: int, x: int, y: int) -> bool {
    cell_origin_x(area, col) <= x < cell_origin_x(area, col) + 5 && cell_origin_y(area, row) <= y
        < cell_origin_y(area, row) + 3
}

/// Which board cell, if any, the screen point `(x, y)` falls in: `None`
/// whenever the area is too small or the point lies outside the centered
/// 40x24 board block, otherwise the zero-based `(row, col)` pair.
pub open spec fn spec_screen_to_cell(area: Rect, x: int, y: int) -> Option<(u16, u16)> {
    if !area_fits(area) {
        None
    } else if board_origin_x(area) <= x < board_origin_x(area) + 40
        && board_origin_y(area) <= y < board_origin_y(area) + 24 {
        Some((((y - board_origin_y(area)) / 3) as u16, ((x - board_origin_x(area)) / 5) as u16))
    } else {
        None
    }
}

/// Resolve a pointer position to a board cell, or `None` when the pointer
/// is outside the playable area (or the area is below the 40x24 minimum).
pub fn screen_to_cell(area: Rect, x: u16, y: u16) -> (r: Option<(u16, u16)>)
    requires
        area.wf(),
    ensures
        r == spec_screen_to_cell(area, x as int, y as int),
        r matches Some(cell) ==> cell.0 < 8 && cell.1 < 8,
{
    if area.width < 40 || area.height < 24 {
        return None;
    }
    let ox: u16 = area.x + (area.width - 40) / 2;
    let oy: u16 = area.y + (area.height - 24) / 2;
    if x < ox || y < oy {
        return None;
    }
    if x >= ox + 40 || y >= oy + 24 {
        return None;
    }
    let col: u16 = (x - ox) / 5;
    let row: u16 = (y - oy) / 3;
    Some((row, col))
}

/// Top-left character position of board cell `(row, col)`; the renderer
/// paints that cell in the 5x3 block starting here.
pub fn cell_origin(area: Rect, row: u16, col: u16) -> (r: (u16, u16))
    requires
        area.wf(),
        area_fits(area),
        row < 8,
        col < 8,
    ensures
        r.0 == cell_origin_x(area, col as int),
        r.1 == cell_origin_y(area, row as int),
{
    let ox: u16 = area.x + (area.width - 40) / 2;
    let oy: u16 = area.y + (area.height - 24) / 2;
    (ox + 5 * col, oy + 3 * row)
}

/// Mapping a cell's top-left character position back through
/// `screen_to_cell` returns that very cell: the two directions of the
/// coordinate transform are exact inverses on every in-range `(row, col)`.
pub proof fn lemma_screen_to_cell_inverts(area: Rect, row: u16, col: u16)
    requires
        area_fits(area),
        row < 8,
        col < 8,
    ensures
        spec_screen_to_cell(area, cell_origin_x(area, col as int), cell_origin_y(area, row as int))
            == Some((row, col)),
{
    let ox = board_origin_x(area);
    let oy = board_origin_y(area);
    assert((ox + 5 * col - ox) / 5 == col) by (nonlinear_arith);
    assert((oy + 3 * row - oy) / 3 == row) by (nonlinear_arith);
}

/// Every point outside the centered 40x24 board block resolves to `None`.
pub proof fn lemma_screen_to_cell_rejects(area: Rect, x: int, y: int)
    requires
        !(board_origin_x(area) <= x < board_origin_x(area) + 40
            && board_origin_y(area) <= y < board_origin_y(area) + 24),
    ensures
        spec_screen_to_cell(area, x, y) is None,
{
}

/// File letter of board column `col`: column 0 is file 'a'.
pub open spec fn file_char(col: int) -> char {
    if col == 0 {
        'a'
    } else if col == 1 {
        'b'
    } else if col == 2 {
        'c'
    } else if col == 3 {
        'd'
    } else if col == 4 {
        'e'
    } else if col == 5 {
        'f'
    } else if col == 6 {
        'g'
    } else {
        'h'
    }
}

/// Rank digit of board row `row`: row 0 is the top of the screen, rank 8.
pub open spec fn rank_char(row: int) -> char {
    if row == 0 {
        '8'
    } else if row == 1 {
        '7'
    } else if row == 2 {
        '6'
    } else if row == 3 {
        '5'
    } else if row == 4 {
        '4'
    } else if row == 5 {
        '3'
    } else if row == 6 {
        '2'
    } else {
        '1'
    }
}

/// The algebraic name of cell `(row, col)`, as a character sequence.
pub open spec fn algebraic_chars(row: int, col: int) -> Seq<char> {
    seq![file_char(col), rank_char(row)]
}

fn file_letter(col: u16) -> (s: &'static str)
    requires
        col < 8,
    ensures
        s@ == seq![file_char(col as int)],
{
    proof {
        reveal_strlit("a");
        reveal_strlit("b");
        reveal_strlit("c");
        reveal_strlit("d");
        reveal_strlit("e");
        reveal_strlit("f");
        reveal_strlit("g");
        reveal_strlit("h");
    }
    let s: &'static str = if col == 0 {
        "a"
    } else if col == 1 {
        "b"
    } else if col == 2 {
        "c"
    } else if col == 3 {
        "d"
    } else if col == 4 {
        "e"
    } else if col == 5 {
        "f"
    } else if col == 6 {
        "g"
    } else {
        "h"
    };
    proof {
        assert(s@ =~= seq![file_char(col as int)]);
    }
    s
}

fn rank_digit(row: u16) -> (s: &'static str)
    requires
        row < 8,
    ensures
        s@ == seq![rank_char(row as int)],
{
    proof {
        reveal_strlit("1");
        reveal_strlit("2");
        reveal_strlit("3");
        reveal_strlit("4");
        reveal_strlit("5");
        reveal_strlit("6");
        reveal_strlit("7");
        reveal_strlit("8");
    }
    let s: &'static str = if row == 0 {
        "8"
    } else if row == 1 {
        "7"
    } else if row == 2 {
        "6"
    } else if row == 3 {
        "5"
    } else if row == 4 {
        "4"
    } else if row == 5 {
        "3"
    } else if row == 6 {
        "2"
    } else {
        "1"
    };
    proof {
        assert(s@ =~= seq![rank_char(row as int)]);
    }
    s
}

/// Algebraic name of the board cell at screen row `rank` and column
/// `file`: the file letter followed by the rank digit, e.g. cell (6, 4)
/// is "e2".
pub fn to_chess_notation(rank: u16, file: u16) -> (s: String)
    requires
        rank < 8,
        file < 8,
    ensures
        s@ == algebraic_chars(rank as int, file as int),
{
    let head = file_letter(file);
    let tail = rank_digit(rank);
    let s = String::from_str(head).concat(tail);
    proof {
        assert(s@ =~= algebraic_chars(rank as int, file as int));
    }
    s
}

/// The inverse of `algebraic_chars`: which `(row, col)` a file letter and
/// rank digit name, or `None` when either character is out of range.
pub open spec fn spec_parse_algebraic(file_ch: char, rank_ch: char) -> Option<(u16, u16)> {
    if 'a' <= file_ch && file_ch <= 'h' && '1' <= rank_ch && rank_ch <= '8' {
        Some(((56 - rank_ch as int) as u16, (file_ch as int - 97) as u16))
    } else {
        None
    }
}

/// Parse a file letter and a rank digit back into a `(row, col)` pair.
pub fn parse_algebraic(file_ch: char, rank_ch: char) -> (r: Option<(u16, u16)>)
    ensures
        r == spec_parse_algebraic(file_ch, rank_ch),
        r matches Some(cell) ==> cell.0 < 8 && cell.1 < 8,
{
    let f = file_ch as u32;
    let d = rank_ch as u32;
    if 97 <= f && f <= 104 && 49 <= d && d <= 56 {
        Some(((56 - d) as u16, (f - 97) as u16))
    } else {
        None
    }
}

/// Round trip of the algebraic conversion: parsing the name of any
/// in-range cell yields that cell back.
pub proof fn lemma_algebraic_round_trip(row: u16, col: u16)
    requires
        row < 8,
        col < 8,
    ensures
        spec_parse_algebraic(file_char(col as int), rank_char(row as int)) == Some((row, col)),
{
}

} // verus!
