//! The board view model: squares, pieces, the selection state machine's
//! states, and the interaction state carried between input events.

use vstd::prelude::*;
use crate::coords;

verus! {

/// The six chess piece kinds.
#[derive(Clone, Copy, Debug, PartialEq, Eq, Structural)]
pub enum PieceKind {
    Pawn,
    Knight,
    Bishop,
    Rook,
    Queen,
    King,
}

/// The glyph drawn for a piece of this kind, one fixed symbol per kind.
pub open spec fn glyph_of(kind: PieceKind) -> char {
    match kind {
        PieceKind::Pawn => '\u{f0859}',
        PieceKind::King => '\u{f0857}',
        PieceKind::Queen => '\u{f085a}',
        PieceKind::Knight => '\u{f0858}',
        PieceKind::Bishop => '\u{f085c}',
        PieceKind::Rook => '\u{f085b}',
    }
}

impl PieceKind {
    /// The glyph drawn for this piece kind.
    pub fn glyph(self) -> (c: char)
        ensures
            c == glyph_of(self),
    {
        match self {
            PieceKind::Pawn => '\u{f0859}',
            PieceKind::King => '\u{f0857}',
            PieceKind::Queen => '\u{f085a}',
            PieceKind::Knight => '\u{f0858}',
            PieceKind::Bishop => '\u{f085c}',
            PieceKind::Rook => '\u{f085b}',
        }
    }
}

/// The two sides.
#[derive(Clone, Copy, Debug, PartialEq, Eq, Structural)]
pub enum PlayerColor {
    White,
    Black,
}

/// A piece together with its side.
#[derive(Clone, Copy, Debug, PartialEq, Eq, Structural)]
pub struct ColoredPiece {
    pub kind: PieceKind,
    pub color: PlayerColor,
}

/// A board square in screen orientation: row 0 is the top of the board
/// (rank 8), column 0 the leftmost file ('a').  Both coordinates must lie
/// in `[0, 8)`; values outside that range are a programming error, never
/// a runtime case.
#[derive(Clone, Copy, Debug, PartialEq, Eq, Structural)]
pub struct Square {
    pub row: u16,
    pub col: u16,
}

impl Square {
    pub open spec fn wf(self) -> bool {
        self.row < 8 && self.col < 8
    }

    pub fn new(row: u16, col: u16) -> (r: Square)
        requires
            row < 8,
            col < 8,
        ensures
            r == (Square { row, col }),
            r.wf(),
    {
        Square { row, col }
    }
}

/// The interaction state: nothing selected, one square selected, or a
/// validated promotion move awaiting the choice of a piece kind.  The
/// second square of `PromotionPending` is the destination the pawn will
/// promote on.
#[derive(Clone, Copy, Debug, PartialEq, Eq, Structural)]
pub enum SelectionState {
    Empty,
    Selected(Square),
    PromotionPending(Square, Square),
}

impl SelectionState {
    /// Every square the state carries is an in-range board square.
    pub open spec fn wf(self) -> bool {
        match self {
            SelectionState::Empty => true,
            SelectionState::Selected(sq) => sq.wf(),
            SelectionState::PromotionPending(start, end) => start.wf() && end.wf(),
        }
    }
}

/// The promotion choice the screen point `(x, y)` picks while the menu
/// is anchored on destination cell `end`: the menu shows four glyphs
/// inside that cell's 5x3 block — Queen and Rook on its top character
/// row, Knight and Bishop on its bottom one — and a point anywhere else
/// picks nothing.
pub open spec fn promo_slot_kind(area: coords::Rect, end: Square, x: int, y: int) -> Option<
    PieceKind,
> {
    let bx = coords::cell_origin_x(area, end.col as int);
    let by = coords::cell_origin_y(area, end.row as int);
    if x == bx + 1 && y == by {
        Some(PieceKind::Queen)
    } else if x == bx + 3 && y == by {
        Some(PieceKind::Rook)
    } else if x == bx + 1 && y == by + 2 {
        Some(PieceKind::Knight)
    } else if x == bx + 3 && y == by + 2 {
        Some(PieceKind::Bishop)
    } else {
        None
    }
}

/// Hit-test a screen point against the promotion menu anchored on `end`.
pub fn promo_slot_hit(area: coords::Rect, end: Square, x: u16, y: u16) -> (r: Option<PieceKind>)
    requires
        area.wf(),
        coords::area_fits(area),
        end.wf(),
    ensures
        r == promo_slot_kind(area, end, x as int, y as int),
{
    let (bx, by) = coords::cell_origin(area, end.row, end.col);
    if x == bx + 1 && y == by {
        Some(PieceKind::Queen)
    } else if x == bx + 3 && y == by {
        Some(PieceKind::Rook)
    } else if x == bx + 1 && y == by + 2 {
        Some(PieceKind::Knight)
    } else if x == bx + 3 && y == by + 2 {
        Some(PieceKind::Bishop)
    } else {
        None
    }
}

/// The interaction state carried between input events: what, if
/// anything, is currently selected.
#[derive(Clone, Copy, Debug, PartialEq, Eq, Structural)]
pub struct MyGameState {
    pub selection: SelectionState,
}

impl Default for MyGameState {
    /// A fresh interaction state has nothing selected.
    fn default() -> (r: MyGameState)
        ensures
            r.selection == SelectionState::Empty,
            r.wf(),
    {
        MyGameState { selection: SelectionState::Empty }
    }
}

impl MyGameState {
    pub open spec fn wf(self) -> bool {
        self.selection.wf()
    }

    /// Make a fresh state with nothing selected.
    pub fn new() -> (r: MyGameState)
        ensures
            r.selection == SelectionState::Empty,
            r.wf(),
    {
        MyGameState { selection: SelectionState::Empty }
    }

    /// Replace the current selection with `sq`.
    pub fn select(&mut self, sq: Square)
        requires
            sq.wf(),
        ensures
            final(self).selection == SelectionState::Selected(sq),
            final(self).wf(),
    {
        self.selection = SelectionState::Selected(sq);
    }

    /// Drop any selection; valid from every state.
    pub fn clear_selection(&mut self)
        ensures
            final(self).selection == SelectionState::Empty,
            final(self).wf(),
    {
        self.selection = SelectionState::Empty;
    }

    /// Algebraic name of the square the interaction is anchored on: the
    /// selected square, or the moving pawn's square while a promotion
    /// choice is pending; `None` when nothing is selected.
    pub fn to_chess_notation(&self) -> (r: Option<String>)
        requires
            self.wf(),
        ensures
            match self.selection {
                SelectionState::Empty => r is None,
                SelectionState::Selected(sq) => r matches Some(s) && s@ == coords::algebraic_chars(
                    sq.row as int,
                    sq.col as int,
                ),
                SelectionState::PromotionPending(start, end) => r matches Some(s) && s@
                    == coords::algebraic_chars(start.row as int, start.col as int),
            },
    {
        match self.selection {
            SelectionState::Empty => None,
            SelectionState::Selected(sq) => Some(coords::to_chess_notation(sq.row, sq.col)),
            SelectionState::PromotionPending(start, _) => Some(
                coords::to_chess_notation(start.row, start.col),
            ),
        }
    }
}

} // verus!
