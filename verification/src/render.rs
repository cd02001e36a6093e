//! The renderer: paints the board view into an owned buffer of screen
//! cells.
//!
//! Rendering is a painter's-algorithm compositing pass.  For every screen
//! cell, five paint steps are applied in a fixed order — checkerboard
//! background, piece glyph, selection highlight, legal-destination
//! marker, promotion menu — and a later step overwrites what an earlier
//! one put at the same cell.  The contract pins the final buffer down
//! cell by cell: each cell equals `rendered_cell` of its previous
//! content.  An area below the 40x24 minimum renders nothing at all.

use vstd::prelude::*;
use crate::coords;
use crate::coords::Rect;
use crate::engine;
use crate::engine::MyGame;
use crate::model::{
    glyph_of,
    promo_slot_kind,
    ColoredPiece,
    MyGameState,
    PlayerColor,
    SelectionState,
    Square,
};

verus! {

/// A foreground or background color of one screen cell.
#[derive(Clone, Copy, Debug, PartialEq, Eq, Structural)]
pub enum CellColor {
    /// The terminal's default color.
    Reset,
    White,
    Black,
    Rgb(u8, u8, u8),
}

/// One screen cell: a glyph with a foreground and a background color.
#[derive(Clone, Copy, Debug, PartialEq, Eq, Structural)]
pub struct BufCell {
    pub glyph: char,
    pub fg: CellColor,
    pub bg: CellColor,
}

/// An untouched screen cell: a space in the terminal's default colors.
pub open spec fn blank_cell() -> BufCell {
    BufCell { glyph: ' ', fg: CellColor::Reset, bg: CellColor::Reset }
}

/// Background color of the light board squares.
pub open spec fn light_square_color() -> CellColor {
    CellColor::Rgb(0xc0, 0xc1, 0xc3)
}

/// Background color of the dark board squares.
pub open spec fn dark_square_color() -> CellColor {
    CellColor::Rgb(0xb5, 0x87, 0x63)
}

/// The green used for the selection highlight and destination markers.
pub open spec fn accent_color() -> CellColor {
    CellColor::Rgb(0x33, 0xa0, 0x33)
}

/// Foreground color a piece of the given side is drawn with.
pub open spec fn color_to_cell(c: PlayerColor) -> CellColor {
    match c {
        PlayerColor::White => CellColor::White,
        PlayerColor::Black => CellColor::Black,
    }
}

/// Paint step 1: the checkerboard background.  Every cell of the board
/// block gets one of two fixed colors by the parity of its board cell;
/// cells outside the block are untouched.
pub open spec fn checker_cell(prior: BufCell, area: Rect, x: int, y: int) -> BufCell {
    if coords::in_board(area, x, y) {
        if (coords::row_of(area, y) + coords::col_of(area, x)) % 2 == 0 {
            BufCell { bg: light_square_color(), ..prior }
        } else {
            BufCell { bg: dark_square_color(), ..prior }
        }
    } else {
        prior
    }
}

/// Paint step 2: piece glyphs.  The visual center of every occupied
/// board cell gets the piece's glyph, colored by its side.
pub open spec fn piece_cell(prior: BufCell, g: chess::Game, area: Rect, x: int, y: int) -> BufCell {
    if coords::in_board(area, x, y) && coords::is_cell_center(area, x, y) {
        match engine::piece_at_cell(g, coords::row_of(area, y), coords::col_of(area, x)) {
            Some(p) => BufCell { glyph: glyph_of(p.kind), fg: color_to_cell(p.color), ..prior },
            None => prior,
        }
    } else {
        prior
    }
}

/// Paint step 3: the selection highlight.  The 5x3 block of the selected
/// square — or of the moving pawn's square while a promotion choice is
/// pending — gets the accent background.
pub open spec fn highlight_cell(
    prior: BufCell,
    sel: SelectionState,
    area: Rect,
    x: int,
    y: int,
) -> BufCell {
    if coords::area_fits(area) {
        match sel {
            SelectionState::Empty => prior,
            SelectionState::Selected(sq) => if coords::in_cell_block(
                area,
                sq.row as int,
                sq.col as int,
                x,
                y,
            ) {
                BufCell { bg: accent_color(), ..prior }
            } else {
                prior
            },
            SelectionState::PromotionPending(start, _) => if coords::in_cell_block(
                area,
                start.row as int,
                start.col as int,
                x,
                y,
            ) {
                BufCell { bg: accent_color(), ..prior }
            } else {
                prior
            },
        }
    } else {
        prior
    }
}

/// Paint step 4: legal-destination markers.  While a square is selected,
/// the center of every cell a move may legally reach gets the accent
/// foreground — with a filled dot glyph where the cell shows no piece,
/// as a tint over the occupant's glyph where it does (a capture).
pub open spec fn marker_cell(
    prior: BufCell,
    g: chess::Game,
    sel: SelectionState,
    area: Rect,
    x: int,
    y: int,
) -> BufCell {
    match sel {
        SelectionState::Selected(sq) => if coords::in_board(area, x, y) && coords::is_cell_center(
            area,
            x,
            y,
        ) && engine::legal_cell(
            g,
            sq,
            Square { row: coords::row_of(area, y) as u16, col: coords::col_of(area, x) as u16 },
            None,
        ) {
            if prior.glyph == ' ' {
                BufCell { glyph: '\u{2b24}', fg: accent_color(), ..prior }
            } else {
                BufCell { fg: accent_color(), ..prior }
            }
        } else {
            prior
        },
        _ => prior,
    }
}

/// Paint step 5: the promotion menu.  While a promotion choice is
/// pending, the four slots of the menu anchored on the destination cell
/// get the choice glyphs (Queen, Rook, Knight, Bishop), colored by the
/// moving pawn's side.
pub open spec fn promo_cell(
    prior: BufCell,
    g: chess::Game,
    sel: SelectionState,
    area: Rect,
    x: int,
    y: int,
) -> BufCell {
    match sel {
        SelectionState::PromotionPending(start, end) => if coords::area_fits(area) {
            match engine::piece_at_cell(g, start.row as int, start.col as int) {
                Some(p) => match promo_slot_kind(area, end, x, y) {
                    Some(k) => BufCell { glyph: glyph_of(k), fg: color_to_cell(p.color), ..prior },
                    None => prior,
                },
                None => prior,
            }
        } else {
            prior
        },
        _ => prior,
    }
}

/// The full compositing pass on one screen cell: the five paint steps
/// applied in order to the cell's previous content.
pub open spec fn rendered_cell(
    prior: BufCell,
    g: chess::Game,
    sel: SelectionState,
    area: Rect,
    x: int,
    y: int,
) -> BufCell {
    promo_cell(
        marker_cell(
            highlight_cell(piece_cell(checker_cell(prior, area, x, y), g, area, x, y), sel, area, x, y),
            g,
            sel,
            area,
            x,
            y,
        ),
        g,
        sel,
        area,
        x,
        y,
    )
}

/// An owned screen buffer: a grid of cells the renderer paints into,
/// which the surrounding application then copies to the terminal.
/// Writes outside the grid are silently clipped, never an error.
pub struct ScreenBuffer {
    pub width: u16,
    pub height: u16,
    pub cells: Vec<BufCell>,
}

proof fn lemma_grid_dims_fit(w: int, h: int)
    requires
        0 <= w <= 65535,
        0 <= h <= 65535,
    ensures
        w * h <= 0xfffe0001,
{
    assert(w * h <= 65535 * 65535) by (nonlinear_arith)
        requires
            0 <= w <= 65535,
            0 <= h <= 65535,
    ;
}

proof fn lemma_grid_index_bounds(w: int, h: int, x: int, y: int)
    requires
        0 <= x < w,
        0 <= y < h,
    ensures
        0 <= y * w + x < w * h,
{
    assert(y * w + x < w * h) by (nonlinear_arith)
        requires
            0 <= x < w,
            0 <= y < h,
    ;
    assert(y * w + x >= 0) by (nonlinear_arith)
        requires
            0 <= x,
            0 <= y,
            0 < w,
    ;
}

proof fn lemma_grid_index_injective(w: int, x1: int, y1: int, x2: int, y2: int)
    requires
        0 <= x1 < w,
        0 <= x2 < w,
        0 <= y1,
        0 <= y2,
        !(x1 == x2 && y1 == y2),
    ensures
        y1 * w + x1 != y2 * w + x2,
{
    if y1 == y2 {
        assert(y1 * w + x1 != y2 * w + x2);
    } else {
        assert(y1 * w + x1 != y2 * w + x2) by (nonlinear_arith)
            requires
                0 <= x1 < w,
                0 <= x2 < w,
                y1 != y2,
        ;
    }
}

impl ScreenBuffer {
    /// The buffer holds exactly one cell per grid position.
    pub open spec fn wf(self) -> bool {
        self.cells@.len() == self.width as int * self.height as int
    }

    /// The cell at grid position `(x, y)`.
    pub open spec fn cell_at(self, x: int, y: int) -> BufCell {
        self.cells@[y * self.width as int + x]
    }

    /// A fresh buffer of blank cells.
    pub fn new(width: u16, height: u16) -> (r: ScreenBuffer)
        ensures
            r.wf(),
            r.width == width,
            r.height == height,
            forall|x: int, y: int|
                0 <= x < width && 0 <= y < height ==> r.cell_at(x, y) == blank_cell(),
    {
        proof {
            lemma_grid_dims_fit(width as int, height as int);
        }
        let n: usize = width as usize * height as usize;
        let mut cells: Vec<BufCell> = Vec::new();
        let mut i: usize = 0;
        while i < n
            invariant
                i <= n,
                cells@.len() == i,
                forall|j: int| 0 <= j < i ==> cells@[j] == blank_cell(),
            decreases n - i,
        {
            cells.push(BufCell { glyph: ' ', fg: CellColor::Reset, bg: CellColor::Reset });
            i = i + 1;
        }
        let r = ScreenBuffer { width, height, cells };
        proof {
            assert forall|x: int, y: int|
                0 <= x < width && 0 <= y < height implies r.cell_at(x, y) == blank_cell() by {
                lemma_grid_index_bounds(width as int, height as int, x, y);
            }
        }
        r
    }

    /// Read the cell at `(x, y)`.
    pub fn get_cell(&self, x: u16, y: u16) -> (r: BufCell)
        requires
            self.wf(),
            x < self.width,
            y < self.height,
        ensures
            r == self.cell_at(x as int, y as int),
    {
        proof {
            lemma_grid_dims_fit(self.width as int, self.height as int);
            lemma_grid_index_bounds(self.width as int, self.height as int, x as int, y as int);
        }
        let idx: usize = y as usize * self.width as usize + x as usize;
        self.cells[idx]
    }

    /// Write the cell at `(x, y)`; a position outside the grid is
    /// silently clipped and the buffer left unchanged.
    pub fn set_cell(&mut self, x: u16, y: u16, c: BufCell)
        requires
            old(self).wf(),
        ensures
            final(self).wf(),
            final(self).width == old(self).width,
            final(self).height == old(self).height,
            x < old(self).width && y < old(self).height ==> forall|xx: int, yy: int|
                0 <= xx < old(self).width && 0 <= yy < old(self).height ==> final(self).cell_at(
                    xx,
                    yy,
                ) == (if xx == x as int && yy == y as int {
                    c
                } else {
                    old(self).cell_at(xx, yy)
                }),
            !(x < old(self).width && y < old(self).height) ==> *final(self) == *old(self),
    {
        if x < self.width && y < self.height {
            proof {
                lemma_grid_dims_fit(self.width as int, self.height as int);
                lemma_grid_index_bounds(self.width as int, self.height as int, x as int, y as int);
            }
            let idx: usize = y as usize * self.width as usize + x as usize;
            self.cells[idx] = c;
            proof {
                assert forall|xx: int, yy: int|
                    0 <= xx < self.width && 0 <= yy < self.height && !(xx == x as int && yy
                        == y as int) implies self.cell_at(xx, yy) == old(self).cell_at(xx, yy) by {
                    lemma_grid_index_bounds(self.width as int, self.height as int, xx, yy);
                    lemma_grid_index_injective(self.width as int, xx, yy, x as int, y as int);
                }
            }
        }
    }
}

/// Foreground color for a piece of the given side.
fn piece_fg(c: PlayerColor) -> (r: CellColor)
    ensures
        r == color_to_cell(c),
{
    match c {
        PlayerColor::White => CellColor::White,
        PlayerColor::Black => CellColor::Black,
    }
}

/// Apply the five paint steps to one screen cell.
fn render_pixel(
    prior: BufCell,
    grid: &Vec<Option<ColoredPiece>>,
    mask: &Option<Vec<bool>>,
    sel: SelectionState,
    area: Rect,
    x: u16,
    y: u16,
    g: Ghost<chess::Game>,
) -> (r: BufCell)
    requires
        area.wf(),
        coords::area_fits(area),
        sel.wf(),
        grid@.len() == 64,
        forall|rr: int, cc: int|
            0 <= rr < 8 && 0 <= cc < 8 ==> grid@[#[trigger] engine::cell_index(rr, cc)]
                == engine::piece_at_cell(g@, rr, cc),
        sel matches SelectionState::Selected(sq) ==> mask matches Some(m) && m@.len() == 64
            && forall|rr: int, cc: int|
            0 <= rr < 8 && 0 <= cc < 8 ==> m@[#[trigger] engine::cell_index(rr, cc)]
                == engine::legal_cell(g@, sq, Square { row: rr as u16, col: cc as u16 }, None),
    ensures
        r == rendered_cell(prior, g@, sel, area, x as int, y as int),
{
    let ox: u16 = area.x + (area.width - 40) / 2;
    let oy: u16 = area.y + (area.height - 24) / 2;
    let inside: bool = ox <= x && x < ox + 40 && oy <= y && y < oy + 24;
    let mut c = prior;

    if inside {
        let col: u16 = (x - ox) / 5;
        let row: u16 = (y - oy) / 3;
        if (row + col) % 2 == 0 {
            c.bg = CellColor::Rgb(0xc0, 0xc1, 0xc3);
        } else {
            c.bg = CellColor::Rgb(0xb5, 0x87, 0x63);
        }
    }
    let ghost c1 = checker_cell(prior, area, x as int, y as int);
    proof {
        assert(c == c1);
    }

    if inside && (x - ox) % 5 == 2 && (y - oy) % 3 == 1 {
        let col: u16 = (x - ox) / 5;
        let row: u16 = (y - oy) / 3;
        proof {
            assert(grid@[engine::cell_index(row as int, col as int)] == engine::piece_at_cell(
                g@,
                row as int,
                col as int,
            ));
        }
        let idx: usize = (row * 8 + col) as usize;
        if let Some(p) = grid[idx] {
            c.glyph = p.kind.glyph();
            c.fg = piece_fg(p.color);
        }
    }
    let ghost c2 = piece_cell(c1, g@, area, x as int, y as int);
    proof {
        assert(c == c2);
    }

    match sel {
        SelectionState::Selected(sq) | SelectionState::PromotionPending(sq, _) => {
            let bx: u16 = ox + 5 * sq.col;
            let by: u16 = oy + 3 * sq.row;
            if bx <= x && x < bx + 5 && by <= y && y < by + 3 {
                c.bg = CellColor::Rgb(0x33, 0xa0, 0x33);
            }
        },
        SelectionState::Empty => {},
    }
    let ghost c3 = highlight_cell(c2, sel, area, x as int, y as int);
    proof {
        assert(c == c3);
    }

    if let SelectionState::Selected(sq) = sel {
        if inside && (x - ox) % 5 == 2 && (y - oy) % 3 == 1 {
            let col: u16 = (x - ox) / 5;
            let row: u16 = (y - oy) / 3;
            proof {
                assert(engine::cell_index(row as int, col as int) == row * 8 + col);
            }
            let idx: usize = (row * 8 + col) as usize;
            if let Some(m) = mask {
                if m[idx] {
                    if c.glyph == ' ' {
                        c.glyph = '\u{2b24}';
                        c.fg = CellColor::Rgb(0x33, 0xa0, 0x33);
                    } else {
                        c.fg = CellColor::Rgb(0x33, 0xa0, 0x33);
                    }
                }
            }
        }
    }
    let ghost c4 = marker_cell(c3, g@, sel, area, x as int, y as int);
    proof {
        assert(c == c4);
    }

    if let SelectionState::PromotionPending(start, end) = sel {
        proof {
            assert(grid@[engine::cell_index(start.row as int, start.col as int)]
                == engine::piece_at_cell(g@, start.row as int, start.col as int));
        }
        let sidx: usize = (start.row * 8 + start.col) as usize;
        if let Some(p) = grid[sidx] {
            if let Some(k) = crate::model::promo_slot_hit(area, end, x, y) {
                c.glyph = k.glyph();
                c.fg = piece_fg(p.color);
            }
        }
    }
    let ghost c5 = promo_cell(c4, g@, sel, area, x as int, y as int);
    proof {
        assert(c == c5);
    }

    c
}

/// Draw the board view into `buf`: checkerboard, pieces, selection
/// highlight, legal-destination markers and — while a promotion choice
/// is pending — the promotion menu, composited in that order.  When the
/// area is below the 40x24 minimum nothing is drawn and the buffer is
/// returned untouched; positions outside the buffer are silently
/// clipped.
pub fn render(game: &MyGame, state: &MyGameState, area: Rect, buf: &mut ScreenBuffer)
    requires
        area.wf(),
        state.wf(),
        old(buf).wf(),
    ensures
        final(buf).wf(),
        final(buf).width == old(buf).width,
        final(buf).height == old(buf).height,
        !coords::area_fits(area) ==> *final(buf) == *old(buf),
        coords::area_fits(area) ==> forall|x: int, y: int|
            0 <= x < old(buf).width && 0 <= y < old(buf).height ==> final(buf).cell_at(x, y)
                == rendered_cell(old(buf).cell_at(x, y), game.0, state.selection, area, x, y),
{
    if area.width < 40 || area.height < 24 {
        return ;
    }
    let grid = game.snapshot();
    let mask: Option<Vec<bool>> = match state.selection {
        SelectionState::Selected(sq) => Some(game.legal_mask(sq)),
        _ => None,
    };
    let ghost buf0 = *buf;
    let mut y: u16 = 0;
    while y < buf.height
        invariant
            y <= buf.height,
            buf.wf(),
            buf.width == buf0.width,
            buf.height == buf0.height,
            area.wf(),
            coords::area_fits(area),
            state.wf(),
            grid@.len() == 64,
            forall|rr: int, cc: int|
                0 <= rr < 8 && 0 <= cc < 8 ==> grid@[#[trigger] engine::cell_index(rr, cc)]
                    == engine::piece_at_cell(game.0, rr, cc),
            state.selection matches SelectionState::Selected(sq) ==> mask matches Some(m)
                && m@.len() == 64 && forall|rr: int, cc: int|
                0 <= rr < 8 && 0 <= cc < 8 ==> m@[#[trigger] engine::cell_index(rr, cc)]
                    == engine::legal_cell(
                    game.0,
                    sq,
                    Square { row: rr as u16, col: cc as u16 },
                    None,
                ),
            forall|xx: int, yy: int|
                0 <= xx < buf0.width && 0 <= yy < y ==> buf.cell_at(xx, yy) == rendered_cell(
                    buf0.cell_at(xx, yy),
                    game.0,
                    state.selection,
                    area,
                    xx,
                    yy,
                ),
            forall|xx: int, yy: int|
                0 <= xx < buf0.width && y <= yy < buf0.height ==> buf.cell_at(xx, yy)
                    == buf0.cell_at(xx, yy),
        decreases buf.height - y,
    {
        let mut x: u16 = 0;
        while x < buf.width
            invariant
                x <= buf.width,
                y < buf.height,
                buf.wf(),
                buf.width == buf0.width,
                buf.height == buf0.height,
                area.wf(),
                coords::area_fits(area),
                state.wf(),
                grid@.len() == 64,
                forall|rr: int, cc: int|
                    0 <= rr < 8 && 0 <= cc < 8 ==> grid@[#[trigger] engine::cell_index(rr, cc)]
                        == engine::piece_at_cell(game.0, rr, cc),
                state.selection matches SelectionState::Selected(sq) ==> mask matches Some(m)
                    && m@.len() == 64 && forall|rr: int, cc: int|
                    0 <= rr < 8 && 0 <= cc < 8 ==> m@[#[trigger] engine::cell_index(rr, cc)]
                        == engine::legal_cell(
                        game.0,
                        sq,
                        Square { row: rr as u16, col: cc as u16 },
                        None,
                    ),
                forall|xx: int, yy: int|
                    0 <= xx < buf0.width && 0 <= yy < y ==> buf.cell_at(xx, yy) == rendered_cell(
                        buf0.cell_at(xx, yy),
                        game.0,
                        state.selection,
                        area,
                        xx,
                        yy,
                    ),
                forall|xx: int|
                    0 <= xx < x ==> buf.cell_at(xx, y as int) == rendered_cell(
                        buf0.cell_at(xx, y as int),
                        game.0,
                        state.selection,
                        area,
                        xx,
                        y as int,
                    ),
                forall|xx: int|
                    x <= xx < buf0.width ==> buf.cell_at(xx, y as int) == buf0.cell_at(
                        xx,
                        y as int,
                    ),
                forall|xx: int, yy: int|
                    0 <= xx < buf0.width && y < yy < buf0.height ==> buf.cell_at(xx, yy)
                        == buf0.cell_at(xx, yy),
            decreases buf.width - x,
        {
            let prior = buf.get_cell(x, y);
            let c = render_pixel(
                prior,
                &grid,
                &mask,
                state.selection,
                area,
                x,
                y,
                Ghost(game.0),
            );
            buf.set_cell(x, y, c);
            x = x + 1;
        }
        y = y + 1;
    }
}

} // verus!
