//! The legality adapter: the game handle and every query the view makes
//! of the external chess rules engine.
//!
//! The engine's position is opaque here.  Its observable content is named
//! by three uninterpreted functions — which piece stands where, whether a
//! move is legal, and whether the game has ended — and each call into the
//! engine is a small trusted wrapper whose contract speaks over those
//! names.  Everything above the wrappers is verified: the view never
//! reimplements any chess rule, it only queries and applies.

use vstd::prelude::*;
use crate::model::{ColoredPiece, PieceKind, PlayerColor, Square};

verus! {

#[verifier::external_type_specification]
#[verifier::external_body]
pub struct ExGame(chess::Game);

/// The pieces a game's current position holds, keyed by chess-orientation
/// coordinates `(rank, file)` (rank 0 is rank 1, file 0 is file 'a'),
/// each mapped to `(kind_code, color_code)`.  A pure function of the game
/// value; defined only through the trusted wrappers below.
pub uninterp spec fn pieces_of(g: chess::Game) -> Map<(int, int), (int, int)>;

/// Whether the rules engine holds the move from `(from_rank, from_file)`
/// to `(to_rank, to_file)` with promotion `promo` (a `promo_code`) legal
/// in the game's current position.  A pure function of the game value.
pub uninterp spec fn legal_of(
    g: chess::Game,
    from_rank: int,
    from_file: int,
    to_rank: int,
    to_file: int,
    promo: int,
) -> bool;

/// Whether the game has a result (checkmate, stalemate, a draw or a
/// resignation): the rules engine refuses further moves once this holds.
pub uninterp spec fn game_over_of(g: chess::Game) -> bool;

/// The game value chess::Game::make_move leaves behind when it accepts
/// the move from `(from_rank, from_file)` to `(to_rank, to_file)` with
/// promotion `promo` (a `promo_code`): a pure function of the prior game
/// and the move (the source appends exactly that move to the record).
pub uninterp spec fn moved_of(
    g: chess::Game,
    from_rank: int,
    from_file: int,
    to_rank: int,
    to_file: int,
    promo: int,
) -> chess::Game;

pub open spec fn kind_code(k: PieceKind) -> int {
    match k {
        PieceKind::Pawn => 0,
        PieceKind::Knight => 1,
        PieceKind::Bishop => 2,
        PieceKind::Rook => 3,
        PieceKind::Queen => 4,
        PieceKind::King => 5,
    }
}

pub open spec fn kind_from_code(c: int) -> PieceKind {
    if c == 0 {
        PieceKind::Pawn
    } else if c == 1 {
        PieceKind::Knight
    } else if c == 2 {
        PieceKind::Bishop
    } else if c == 3 {
        PieceKind::Rook
    } else if c == 4 {
        PieceKind::Queen
    } else {
        PieceKind::King
    }
}

pub open spec fn color_code(c: PlayerColor) -> int {
    match c {
        PlayerColor::White => 0,
        PlayerColor::Black => 1,
    }
}

pub open spec fn color_from_code(c: int) -> PlayerColor {
    if c == 0 {
        PlayerColor::White
    } else {
        PlayerColor::Black
    }
}

/// Code of an optional promotion piece: -1 for no promotion.
pub open spec fn promo_code(p: Option<PieceKind>) -> int {
    match p {
        None => -1,
        Some(k) => kind_code(k),
    }
}

/// The piece on chess-orientation square `(rank, file)`, decoded.
pub open spec fn piece_at(g: chess::Game, rank: int, file: int) -> Option<ColoredPiece> {
    if pieces_of(g).contains_key((rank, file)) {
        Some(
            ColoredPiece {
                kind: kind_from_code(pieces_of(g)[(rank, file)].0),
                color: color_from_code(pieces_of(g)[(rank, file)].1),
            },
        )
    } else {
        None
    }
}

/// The kind part of `piece_at`.
pub open spec fn kind_at(g: chess::Game, rank: int, file: int) -> Option<PieceKind> {
    match piece_at(g, rank, file) {
        Some(p) => Some(p.kind),
        None => None,
    }
}

/// The color part of `piece_at`.
pub open spec fn color_at(g: chess::Game, rank: int, file: int) -> Option<PlayerColor> {
    match piece_at(g, rank, file) {
        Some(p) => Some(p.color),
        None => None,
    }
}

/// The piece on a square given in screen orientation (row 0 = rank 8).
pub open spec fn piece_at_cell(g: chess::Game, row: int, col: int) -> Option<ColoredPiece> {
    piece_at(g, 7 - row, col)
}

/// Legality of a move between two squares in screen orientation.
pub open spec fn legal_cell(
    g: chess::Game,
    start: Square,
    end: Square,
    promo: Option<PieceKind>,
) -> bool {
    legal_of(
        g,
        7 - start.row as int,
        start.col as int,
        7 - end.row as int,
        end.col as int,
        promo_code(promo),
    )
}

/// The game `chess::Game::make_move` leaves behind on success, for a
/// move between two squares in screen orientation.
pub open spec fn moved_cell(
    g: chess::Game,
    start: Square,
    end: Square,
    promo: Option<PieceKind>,
) -> chess::Game {
    moved_of(g, 7 - start.row as int, start.col as int, 7 - end.row as int, end.col as int, promo_code(promo))
}

/// Flat index of cell `(row, col)` in a 64-entry board vector.
pub open spec fn cell_index(row: int, col: int) -> int {
    row * 8 + col
}

/// The piece kind on chess-orientation square `(rank, file)` of the
/// standard starting position (only meaningful on its occupied ranks 0,
/// 1, 6 and 7): pawns on ranks 1 and 6, and the usual back-rank order —
/// Rook, Knight, Bishop, Queen, King, Bishop, Knight, Rook.
pub open spec fn starting_kind(rank: int, file: int) -> int {
    if rank == 1 || rank == 6 {
        kind_code(PieceKind::Pawn)
    } else if file == 0 || file == 7 {
        kind_code(PieceKind::Rook)
    } else if file == 1 || file == 6 {
        kind_code(PieceKind::Knight)
    } else if file == 2 || file == 5 {
        kind_code(PieceKind::Bishop)
    } else if file == 3 {
        kind_code(PieceKind::Queen)
    } else {
        kind_code(PieceKind::King)
    }
}

/// The standard starting position as a `pieces_of` map: the 32 squares
/// of ranks 0, 1, 6 and 7 are occupied — White on ranks 0 and 1, Black
/// on ranks 6 and 7 — with the kinds of `starting_kind`.
pub open spec fn starting_position() -> Map<(int, int), (int, int)> {
    Map::new(
        (|k: (int, int)| 0 <= k.1 < 8 && (k.0 == 0 || k.0 == 1 || k.0 == 6 || k.0 == 7)),
        (|k: (int, int)|
            (
                starting_kind(k.0, k.1),
                if k.0 == 0 || k.0 == 1 {
                    color_code(PlayerColor::White)
                } else {
                    color_code(PlayerColor::Black)
                },
            )),
    )
}

/// Relies on chess::Game::new: a fresh game in the standard starting
/// position (chess::Board::default, the usual 32 pieces on their home
/// squares); chess::Game::result on it is None, so no move is refused
/// for the game being over.
#[verifier::external_body]
fn engine_new() -> (g: chess::Game)
    ensures
        !game_over_of(g),
        pieces_of(g) == starting_position(),
{
    chess::Game::new()
}

/// Relies on chess::Game::current_position and chess::Board::piece_on:
/// the kind of the piece on the given square of the current position,
/// a pure function of the game value.
#[verifier::external_body]
fn engine_piece_kind(g: &chess::Game, rank: u16, file: u16) -> (r: Option<PieceKind>)
    requires
        rank < 8,
        file < 8,
    ensures
        r == kind_at(*g, rank as int, file as int),
        r is Some <==> pieces_of(*g).contains_key((rank as int, file as int)),
{
    let rk = chess::Rank::from_index(rank as usize);
    let fl = chess::File::from_index(file as usize);
    let sq = chess::Square::make_square(rk, fl);
    match g.current_position().piece_on(sq) {
        None => None,
        Some(chess::Piece::Pawn) => Some(PieceKind::Pawn),
        Some(chess::Piece::Knight) => Some(PieceKind::Knight),
        Some(chess::Piece::Bishop) => Some(PieceKind::Bishop),
        Some(chess::Piece::Rook) => Some(PieceKind::Rook),
        Some(chess::Piece::Queen) => Some(PieceKind::Queen),
        Some(chess::Piece::King) => Some(PieceKind::King),
    }
}

/// Relies on chess::Game::current_position and chess::Board::color_on:
/// the side of the piece on the given square of the current position,
/// a pure function of the game value.
#[verifier::external_body]
fn engine_color(g: &chess::Game, rank: u16, file: u16) -> (r: Option<PlayerColor>)
    requires
        rank < 8,
        file < 8,
    ensures
        r == color_at(*g, rank as int, file as int),
{
    let rk = chess::Rank::from_index(rank as usize);
    let fl = chess::File::from_index(file as usize);
    let sq = chess::Square::make_square(rk, fl);
    match g.current_position().color_on(sq) {
        None => None,
        Some(chess::Color::White) => Some(PlayerColor::White),
        Some(chess::Color::Black) => Some(PlayerColor::Black),
    }
}

/// Relies on chess::Game::current_position and chess::Board::legal:
/// whether the move, built with chess::ChessMove::new from the given
/// squares and promotion piece, is legal in the current position; a pure
/// function of the game value and the move.
#[verifier::external_body]
fn engine_legal(
    g: &chess::Game,
    from_rank: u16,
    from_file: u16,
    to_rank: u16,
    to_file: u16,
    promo: Option<PieceKind>,
) -> (r: bool)
    requires
        from_rank < 8,
        from_file < 8,
        to_rank < 8,
        to_file < 8,
    ensures
        r == legal_of(
            *g,
            from_rank as int,
            from_file as int,
            to_rank as int,
            to_file as int,
            promo_code(promo),
        ),
{
    let source = chess::Square::make_square(chess::Rank::from_index(from_rank as usize), chess::File::from_index(from_file as usize));
    let dest = chess::Square::make_square(chess::Rank::from_index(to_rank as usize), chess::File::from_index(to_file as usize));
    let p = match promo {
        None => None,
        Some(PieceKind::Pawn) => Some(chess::Piece::Pawn),
        Some(PieceKind::Knight) => Some(chess::Piece::Knight),
        Some(PieceKind::Bishop) => Some(chess::Piece::Bishop),
        Some(PieceKind::Rook) => Some(chess::Piece::Rook),
        Some(PieceKind::Queen) => Some(chess::Piece::Queen),
        Some(PieceKind::King) => Some(chess::Piece::King),
    };
    g.current_position().legal(chess::ChessMove::new(source, dest, p))
}

/// Relies on chess::Game::make_move: it applies the move and returns
/// true exactly when the move is legal in the current position and the
/// game has no result yet; on a true return the game is exactly the one
/// that call leaves behind (`moved_of`), and on every false return it is
/// untouched.
#[verifier::external_body]
fn engine_make_move(
    g: &mut chess::Game,
    from_rank: u16,
    from_file: u16,
    to_rank: u16,
    to_file: u16,
    promo: Option<PieceKind>,
) -> (r: bool)
    requires
        from_rank < 8,
        from_file < 8,
        to_rank < 8,
        to_file < 8,
    ensures
        r == (legal_of(
            *old(g),
            from_rank as int,
            from_file as int,
            to_rank as int,
            to_file as int,
            promo_code(promo),
        ) && !game_over_of(*old(g))),
        r ==> *final(g) == moved_of(
            *old(g),
            from_rank as int,
            from_file as int,
            to_rank as int,
            to_file as int,
            promo_code(promo),
        ),
        !r ==> *final(g) == *old(g),
{
    let source = chess::Square::make_square(chess::Rank::from_index(from_rank as usize), chess::File::from_index(from_file as usize));
    let dest = chess::Square::make_square(chess::Rank::from_index(to_rank as usize), chess::File::from_index(to_file as usize));
    let p = match promo {
        None => None,
        Some(PieceKind::Pawn) => Some(chess::Piece::Pawn),
        Some(PieceKind::Knight) => Some(chess::Piece::Knight),
        Some(PieceKind::Bishop) => Some(chess::Piece::Bishop),
        Some(PieceKind::Rook) => Some(chess::Piece::Rook),
        Some(PieceKind::Queen) => Some(chess::Piece::Queen),
        Some(PieceKind::King) => Some(chess::Piece::King),
    };
    g.make_move(chess::ChessMove::new(source, dest, p))
}

/// The error of a rejected move application: the rules engine held the
/// move illegal (or the game already over) at the moment it was applied.
#[derive(Clone, Copy, Debug, PartialEq, Eq, Structural)]
pub struct IllegalMove;

/// The game handle: a chess game owned by the view and mutated only
/// through `apply`.
#[derive(Debug)]
pub struct MyGame(pub chess::Game);

impl Default for MyGame {
    /// A fresh game in the standard starting position.
    fn default() -> (r: MyGame)
        ensures
            !game_over_of(r.0),
            pieces_of(r.0) == starting_position(),
    {
        MyGame(engine_new())
    }
}

impl MyGame {
    /// Start a fresh game in the standard starting position.
    pub fn new() -> (r: MyGame)
        ensures
            !game_over_of(r.0),
            pieces_of(r.0) == starting_position(),
    {
        MyGame(engine_new())
    }

    /// The piece standing on `sq`, if any, in the current position.
    pub fn piece_on(&self, sq: Square) -> (r: Option<ColoredPiece>)
        requires
            sq.wf(),
        ensures
            r == piece_at_cell(self.0, sq.row as int, sq.col as int),
    {
        let kind = engine_piece_kind(&self.0, 7 - sq.row, sq.col);
        let color = engine_color(&self.0, 7 - sq.row, sq.col);
        match (kind, color) {
            (Some(k), Some(c)) => Some(ColoredPiece { kind: k, color: c }),
            _ => None,
        }
    }

    /// Single-move legality: whether moving from `start` to `end`, with
    /// the given promotion piece, is legal in the current position.
    pub fn is_legal(&self, start: Square, end: Square, promotion: Option<PieceKind>) -> (r: bool)
        requires
            start.wf(),
            end.wf(),
        ensures
            r == legal_cell(self.0, start, end, promotion),
    {
        engine_legal(&self.0, 7 - start.row, start.col, 7 - end.row, end.col, promotion)
    }

    /// Every square a move from `start` (with no promotion) may legally
    /// reach in the current position; recomputed on every call, never
    /// cached.
    pub fn legal_destinations(&self, start: Square) -> (r: Vec<Square>)
        requires
            start.wf(),
        ensures
            forall|i: int|
                0 <= i < r@.len() ==> (#[trigger] r@[i]).wf() && legal_cell(
                    self.0,
                    start,
                    r@[i],
                    None,
                ),
            forall|s: Square| s.wf() && legal_cell(self.0, start, s, None) ==> r@.contains(s),
            forall|i: int, j: int| 0 <= i < j < r@.len() ==> r@[i] != r@[j],
    {
        let mut r: Vec<Square> = Vec::new();
        let mut row: u16 = 0;
        while row < 8
            invariant
                row <= 8,
                start.wf(),
                forall|i: int|
                    0 <= i < r@.len() ==> (#[trigger] r@[i]).wf() && legal_cell(
                        self.0,
                        start,
                        r@[i],
                        None,
                    ),
                forall|s: Square|
                    s.wf() && s.row < row && legal_cell(self.0, start, s, None) ==> r@.contains(s),
                forall|i: int| 0 <= i < r@.len() ==> (#[trigger] r@[i]).row < row,
                forall|i: int, j: int| 0 <= i < j < r@.len() ==> r@[i] != r@[j],
            decreases 8 - row,
        {
            let mut col: u16 = 0;
            while col < 8
                invariant
                    row < 8,
                    col <= 8,
                    start.wf(),
                    forall|i: int|
                        0 <= i < r@.len() ==> (#[trigger] r@[i]).wf() && legal_cell(
                            self.0,
                            start,
                            r@[i],
                            None,
                        ),
                    forall|s: Square|
                        s.wf() && s.row < row && legal_cell(self.0, start, s, None)
                            ==> r@.contains(s),
                    forall|s: Square|
                        s.wf() && s.row == row && s.col < col && legal_cell(self.0, start, s, None)
                            ==> r@.contains(s),
                    forall|i: int|
                        0 <= i < r@.len() ==> (#[trigger] r@[i]).row < row || (r@[i].row == row
                            && r@[i].col < col),
                    forall|i: int, j: int| 0 <= i < j < r@.len() ==> r@[i] != r@[j],
                decreases 8 - col,
            {
                let dest = Square { row, col };
                if self.is_legal(start, dest, None) {
                    let ghost prev = r@;
                    r.push(dest);
                    proof {
                        assert forall|s: Square| prev.contains(s) implies r@.contains(s) by {
                            let i = choose|i: int| 0 <= i < prev.len() && prev[i] == s;
                            assert(r@[i] == s);
                        }
                        assert(r@[r@.len() - 1] == dest);
                    }
                }
                col = col + 1;
            }
            row = row + 1;
        }
        r
    }

    /// For the renderer: a 64-entry mask, indexed by `cell_index`, of the
    /// squares a move from `start` (with no promotion) may legally reach.
    pub fn legal_mask(&self, start: Square) -> (r: Vec<bool>)
        requires
            start.wf(),
        ensures
            r@.len() == 64,
            forall|row: int, col: int|
                0 <= row < 8 && 0 <= col < 8 ==> r@[#[trigger] cell_index(row, col)] == legal_cell(
                    self.0,
                    start,
                    Square { row: row as u16, col: col as u16 },
                    None,
                ),
    {
        let mut r: Vec<bool> = Vec::new();
        let mut row: u16 = 0;
        while row < 8
            invariant
                row <= 8,
                start.wf(),
                r@.len() == row * 8,
                forall|rr: int, cc: int|
                    0 <= rr < row && 0 <= cc < 8 ==> r@[#[trigger] cell_index(rr, cc)]
                        == legal_cell(
                        self.0,
                        start,
                        Square { row: rr as u16, col: cc as u16 },
                        None,
                    ),
            decreases 8 - row,
        {
            let mut col: u16 = 0;
            while col < 8
                invariant
                    row < 8,
                    col <= 8,
                    start.wf(),
                    r@.len() == row * 8 + col,
                    forall|rr: int, cc: int|
                        0 <= rr < row && 0 <= cc < 8 ==> r@[#[trigger] cell_index(rr, cc)]
                            == legal_cell(
                            self.0,
                            start,
                            Square { row: rr as u16, col: cc as u16 },
                            None,
                        ),
                    forall|cc: int|
                        0 <= cc < col ==> r@[#[trigger] cell_index(row as int, cc)] == legal_cell(
                            self.0,
                            start,
                            Square { row, col: cc as u16 },
                            None,
                        ),
                decreases 8 - col,
            {
                let dest = Square { row, col };
                r.push(self.is_legal(start, dest, None));
                col = col + 1;
            }
            row = row + 1;
        }
        r
    }

    /// For the renderer: the full current position as a 64-entry grid of
    /// optional pieces, indexed by `cell_index`.
    pub fn snapshot(&self) -> (r: Vec<Option<ColoredPiece>>)
        ensures
            r@.len() == 64,
            forall|row: int, col: int|
                0 <= row < 8 && 0 <= col < 8 ==> r@[#[trigger] cell_index(row, col)]
                    == piece_at_cell(self.0, row, col),
    {
        let mut r: Vec<Option<ColoredPiece>> = Vec::new();
        let mut row: u16 = 0;
        while row < 8
            invariant
                row <= 8,
                r@.len() == row * 8,
                forall|rr: int, cc: int|
                    0 <= rr < row && 0 <= cc < 8 ==> r@[#[trigger] cell_index(rr, cc)]
                        == piece_at_cell(self.0, rr, cc),
            decreases 8 - row,
        {
            let mut col: u16 = 0;
            while col < 8
                invariant
                    row < 8,
                    col <= 8,
                    r@.len() == row * 8 + col,
                    forall|rr: int, cc: int|
                        0 <= rr < row && 0 <= cc < 8 ==> r@[#[trigger] cell_index(rr, cc)]
                            == piece_at_cell(self.0, rr, cc),
                    forall|cc: int|
                        0 <= cc < col ==> r@[#[trigger] cell_index(row as int, cc)]
                            == piece_at_cell(self.0, row as int, cc),
                decreases 8 - col,
            {
                r.push(self.piece_on(Square { row, col }));
                col = col + 1;
            }
            row = row + 1;
        }
        r
    }

    /// Apply the move from `start` to `end` with the given promotion
    /// piece.  Succeeds exactly when the rules engine holds the move
    /// legal in the current position and the game is not over; on
    /// success the game becomes exactly the one the engine's move
    /// application leaves behind, and a rejected move leaves it
    /// untouched.
    pub fn apply(&mut self, start: Square, end: Square, promotion: Option<PieceKind>) -> (r: Result<
        (),
        IllegalMove,
    >)
        requires
            start.wf(),
            end.wf(),
        ensures
            r is Ok <==> legal_cell(old(self).0, start, end, promotion) && !game_over_of(
                old(self).0,
            ),
            r is Ok ==> final(self).0 == moved_cell(old(self).0, start, end, promotion),
            r is Err ==> final(self).0 == old(self).0,
    {
        let ok = engine_make_move(
            &mut self.0,
            7 - start.row,
            start.col,
            7 - end.row,
            end.col,
            promotion,
        );
        if ok {
            Ok(())
        } else {
            Err(IllegalMove)
        }
    }
}

/// Legality consistency: a destination set with the contract of
/// `legal_destinations` contains exactly the squares for which the
/// single-move check `is_legal` (with no promotion) answers true —
/// membership and legality never disagree.
pub proof fn lemma_legality_consistent(g: chess::Game, from: Square, dests: Seq<Square>)
    requires
        forall|i: int|
            0 <= i < dests.len() ==> (#[trigger] dests[i]).wf() && legal_cell(
                g,
                from,
                dests[i],
                None,
            ),
        forall|s: Square| s.wf() && legal_cell(g, from, s, None) ==> dests.contains(s),
    ensures
        forall|s: Square| #[trigger] dests.contains(s) ==> legal_cell(g, from, s, None),
        forall|s: Square| s.wf() && !dests.contains(s) ==> !legal_cell(g, from, s, None),
{
    assert forall|s: Square| #[trigger] dests.contains(s) implies legal_cell(g, from, s, None) by {
        let i = choose|i: int| 0 <= i < dests.len() && dests[i] == s;
        assert(dests[i].wf() && legal_cell(g, from, dests[i], None));
    }
}

} // verus!
