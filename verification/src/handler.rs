//! The input router: key handling and the pointer-driven selection state
//! machine.
//!
//! Every pointer release is resolved through the coordinate mapper and
//! drives one transition of the selection state machine, whose whole
//! behaviour is the spec function `spec_step`: it yields the next
//! selection state and the move, if any, to hand to the rules engine.
//! A click outside the playable area always clears the selection; a
//! rejected move is never surfaced as an error.

use vstd::prelude::*;
use crate::app::App;
use crate::coords;
use crate::coords::Rect;
use crate::engine;
use crate::model::{promo_slot_kind, ColoredPiece, PieceKind, PlayerColor, SelectionState, Square};
use crate::render;

verus! {

/// A pressed key as the router sees it.
#[derive(Clone, Copy, Debug, PartialEq, Eq, Structural)]
pub enum KeyInput {
    Esc,
    Char(char),
    Other,
}

/// A key event: the key plus whether the control modifier alone was
/// held.
#[derive(Clone, Copy, Debug, PartialEq, Eq, Structural)]
pub struct KeyStroke {
    pub input: KeyInput,
    pub ctrl: bool,
}

/// The keys that quit the application: `Esc`, `q`, and `Ctrl-C`.
pub open spec fn is_quit_key(key: KeyStroke) -> bool {
    key.input == KeyInput::Esc || key.input == KeyInput::Char('q') || (key.ctrl && (key.input
        == KeyInput::Char('c') || key.input == KeyInput::Char('C')))
}

/// Route a key event: a quit key sets the quit flag; every other key
/// changes nothing.
pub fn handle_key_events(key: KeyStroke, app: &mut App)
    ensures
        final(app).should_quit == (old(app).should_quit || is_quit_key(key)),
        final(app).game == old(app).game,
        final(app).game_state == old(app).game_state,
{
    match key.input {
        KeyInput::Esc => app.quit(),
        KeyInput::Char(c) => {
            if c == 'q' {
                app.quit();
            } else if (c == 'c' || c == 'C') && key.ctrl {
                app.quit();
            }
        },
        KeyInput::Other => {},
    }
}

/// A pointer event as the router sees it: a left-button release at an
/// absolute screen position, or anything else (ignored).
#[derive(Clone, Copy, Debug, PartialEq, Eq, Structural)]
pub enum MouseInput {
    LeftUp { column: u16, row: u16 },
    Other,
}

/// A move for the rules engine to apply.
#[derive(Clone, Copy, Debug, PartialEq, Eq, Structural)]
pub struct MoveCmd {
    pub start: Square,
    pub end: Square,
    pub promotion: Option<PieceKind>,
}

/// Whether a click on `end` while `start` is selected opens the
/// promotion menu: the selected piece is a pawn standing on its
/// second-to-last rank, and moving it to `end` promoting to a Queen is
/// legal.
pub open spec fn starts_promotion(g: chess::Game, start: Square, end: Square) -> bool {
    match engine::piece_at_cell(g, start.row as int, start.col as int) {
        Some(p) => p.kind == PieceKind::Pawn && ((p.color == PlayerColor::White && start.row == 1)
            || (p.color == PlayerColor::Black && start.row == 6)) && engine::legal_cell(
            g,
            start,
            end,
            Some(PieceKind::Queen),
        ),
        None => false,
    }
}

/// One transition of the selection state machine, for a pointer release
/// at screen point `(x, y)`: the next selection state, and the move to
/// hand to the rules engine, if any.
///
/// A point outside the playable area empties the selection from every
/// state.  From `Empty`, a click selects an occupied square.  From
/// `Selected`, a click on the same square is a no-op, a click that
/// starts a promotion records the pending pair, a click on a legal
/// destination yields the move and empties the selection, and any other
/// click is a fresh selection.  From `PromotionPending`, a click on one
/// of the four menu slots yields the promotion move when it is legal;
/// every click resolves the pending state back to `Empty`.
pub open spec fn spec_step(g: chess::Game, sel: SelectionState, area: Rect, x: int, y: int) -> (
    SelectionState,
    Option<MoveCmd>,
) {
    match coords::spec_screen_to_cell(area, x, y) {
        None => (SelectionState::Empty, None::<MoveCmd>),
        Some(cell) => {
            let sq = Square { row: cell.0, col: cell.1 };
            match sel {
                SelectionState::Empty => if engine::piece_at_cell(
                    g,
                    sq.row as int,
                    sq.col as int,
                ) is Some {
                    (SelectionState::Selected(sq), None::<MoveCmd>)
                } else {
                    (SelectionState::Empty, None::<MoveCmd>)
                },
                SelectionState::Selected(start) => if sq == start {
                    (SelectionState::Selected(start), None::<MoveCmd>)
                } else if starts_promotion(g, start, sq) {
                    (SelectionState::PromotionPending(start, sq), None::<MoveCmd>)
                } else if engine::legal_cell(g, start, sq, None) {
                    (
                        SelectionState::Empty,
                        Some(MoveCmd { start, end: sq, promotion: None::<PieceKind> }),
                    )
                } else if engine::piece_at_cell(g, sq.row as int, sq.col as int) is Some {
                    (SelectionState::Selected(sq), None::<MoveCmd>)
                } else {
                    (SelectionState::Empty, None::<MoveCmd>)
                },
                SelectionState::PromotionPending(start, end) => match promo_slot_kind(
                    area,
                    end,
                    x,
                    y,
                ) {
                    Some(k) => if engine::legal_cell(g, start, end, Some(k)) {
                        (
                            SelectionState::Empty,
                            Some(MoveCmd { start, end, promotion: Some(k) }),
                        )
                    } else {
                        (SelectionState::Empty, None::<MoveCmd>)
                    },
                    None => (SelectionState::Empty, None::<MoveCmd>),
                },
            }
        },
    }
}

/// Route a pointer event: resolve it to a board cell and drive one
/// transition of the selection state machine, applying the move the
/// transition yields, if any, through the rules engine.  The quit flag
/// never changes here.  Whenever the transition yields no move the game
/// is untouched; a move commanded after the game has ended is refused by
/// the engine and leaves the game untouched too; and a move commanded
/// while the game is live is applied: the game becomes exactly the one
/// the engine's move application leaves behind.
pub fn handle_mouse_events(ev: MouseInput, area: Rect, app: &mut App)
    requires
        area.wf(),
        old(app).wf(),
    ensures
        final(app).wf(),
        final(app).should_quit == old(app).should_quit,
        match ev {
            MouseInput::Other => *final(app) == *old(app),
            MouseInput::LeftUp { column, row } => {
                &&& final(app).game_state.selection == spec_step(
                    old(app).game.0,
                    old(app).game_state.selection,
                    area,
                    column as int,
                    row as int,
                ).0
                &&& spec_step(
                    old(app).game.0,
                    old(app).game_state.selection,
                    area,
                    column as int,
                    row as int,
                ).1 is None ==> final(app).game == old(app).game
                &&& engine::game_over_of(old(app).game.0) ==> final(app).game == old(app).game
                &&& spec_step(
                    old(app).game.0,
                    old(app).game_state.selection,
                    area,
                    column as int,
                    row as int,
                ).1 matches Some(cmd) ==> (!engine::game_over_of(old(app).game.0)
                    ==> final(app).game.0 == engine::moved_cell(old(app).game.0, cmd.start, cmd.end, cmd.promotion))
            },
        },
{
    match ev {
        MouseInput::Other => {},
        MouseInput::LeftUp { column: x, row: y } => {
            match coords::screen_to_cell(area, x, y) {
                None => {
                    app.game_state.clear_selection();
                },
                Some((row, col)) => {
                    let sq = Square { row, col };
                    match app.game_state.selection {
                        SelectionState::Empty => {
                            if let Some(_) = app.game.piece_on(sq) {
                                app.game_state.select(sq);
                            } else {
                                app.game_state.clear_selection();
                            }
                        },
                        SelectionState::Selected(start) => {
                            if sq == start {
                                app.game_state.select(start);
                            } else {
                                let promo_start: bool = match app.game.piece_on(start) {
                                    Some(p) => p.kind == PieceKind::Pawn && ((p.color
                                        == PlayerColor::White && start.row == 1) || (p.color
                                        == PlayerColor::Black && start.row == 6))
                                        && app.game.is_legal(start, sq, Some(PieceKind::Queen)),
                                    None => false,
                                };
                                if promo_start {
                                    app.game_state.selection = SelectionState::PromotionPending(
                                        start,
                                        sq,
                                    );
                                } else if app.game.is_legal(start, sq, None) {
                                    let _applied = app.game.apply(start, sq, None);
                                    app.game_state.clear_selection();
                                } else if let Some(_) = app.game.piece_on(sq) {
                                    app.game_state.select(sq);
                                } else {
                                    app.game_state.clear_selection();
                                }
                            }
                        },
                        SelectionState::PromotionPending(start, end) => {
                            match crate::model::promo_slot_hit(area, end, x, y) {
                                Some(k) => {
                                    if app.game.is_legal(start, end, Some(k)) {
                                        let _applied = app.game.apply(start, end, Some(k));
                                    }
                                    app.game_state.clear_selection();
                                },
                                None => {
                                    app.game_state.clear_selection();
                                },
                            }
                        },
                    }
                },
            }
        },
    }
}

/// The simple-move scenario: with the game in the standard starting
/// position, the e2 pawn (cell (6, 4)) selected and a click resolving to
/// e4 (cell (4, 4)), the transition commands exactly the move e2-e4 with
/// no promotion and resets the selection to empty.  That the engine
/// holds e2-e4 legal is its own verdict and stands as a hypothesis.
pub proof fn lemma_simple_move_scenario(g: chess::Game, area: Rect, x: int, y: int)
    requires
        engine::pieces_of(g) == engine::starting_position(),
        coords::spec_screen_to_cell(area, x, y) == Some((4u16, 4u16)),
        engine::legal_cell(g, Square { row: 6, col: 4 }, Square { row: 4, col: 4 }, None),
    ensures
        spec_step(g, SelectionState::Selected(Square { row: 6, col: 4 }), area, x, y) == (
            SelectionState::Empty,
            Some(
                MoveCmd {
                    start: Square { row: 6, col: 4 },
                    end: Square { row: 4, col: 4 },
                    promotion: None::<PieceKind>,
                },
            ),
        ),
{
    assert(engine::starting_position().contains_key((1int, 4int)));
    assert(engine::starting_position()[(1int, 4int)] == (0int, 0int));
}

/// The illegal-click scenario: with the game in the standard starting
/// position, the e2 pawn selected and a click resolving to the occupied
/// a2 (cell (6, 0)) — by the engine's verdict not a destination of e2 —
/// no move is commanded and the click becomes a fresh selection of a2.
pub proof fn lemma_illegal_click_scenario(g: chess::Game, area: Rect, x: int, y: int)
    requires
        engine::pieces_of(g) == engine::starting_position(),
        coords::spec_screen_to_cell(area, x, y) == Some((6u16, 0u16)),
        !engine::legal_cell(g, Square { row: 6, col: 4 }, Square { row: 6, col: 0 }, None),
    ensures
        spec_step(g, SelectionState::Selected(Square { row: 6, col: 4 }), area, x, y) == (
            SelectionState::Selected(Square { row: 6, col: 0 }),
            None::<MoveCmd>,
        ),
{
    assert(engine::starting_position().contains_key((1int, 4int)));
    assert(engine::starting_position()[(1int, 4int)] == (0int, 0int));
    assert(engine::starting_position().contains_key((1int, 0int)));
}

/// The promotion scenario: a white pawn stands on its second-to-last
/// rank (row 1) and promoting to a Queen on `end` is legal.  Clicking
/// `end` makes the promotion choice pending, and a second click on the
/// Knight slot of the menu commands exactly the promotion move with the
/// Knight and resets the selection to empty.
pub proof fn lemma_promotion_scenario(
    g: chess::Game,
    start: Square,
    end: Square,
    area: Rect,
    x1: int,
    y1: int,
    x2: int,
    y2: int,
)
    requires
        start.wf(),
        end.wf(),
        end != start,
        engine::piece_at_cell(g, start.row as int, start.col as int) == Some(
            ColoredPiece { kind: PieceKind::Pawn, color: PlayerColor::White },
        ),
        start.row == 1,
        engine::legal_cell(g, start, end, Some(PieceKind::Queen)),
        engine::legal_cell(g, start, end, Some(PieceKind::Knight)),
        coords::spec_screen_to_cell(area, x1, y1) == Some((end.row, end.col)),
        promo_slot_kind(area, end, x2, y2) == Some(PieceKind::Knight),
    ensures
        spec_step(g, SelectionState::Selected(start), area, x1, y1) == (
            SelectionState::PromotionPending(start, end),
            None::<MoveCmd>,
        ),
        spec_step(g, SelectionState::PromotionPending(start, end), area, x2, y2) == (
            SelectionState::Empty,
            Some(MoveCmd { start, end, promotion: Some(PieceKind::Knight) }),
        ),
{
}

/// Selection idempotence: a click on the already selected square leaves
/// the selection unchanged and yields no move — so the game, and with it
/// the whole picture drawn on the next frame (highlight set included),
/// are the same.
pub proof fn lemma_select_idempotent(g: chess::Game, sq: Square, area: Rect, x: int, y: int)
    requires
        coords::spec_screen_to_cell(area, x, y) == Some((sq.row, sq.col)),
    ensures
        spec_step(g, SelectionState::Selected(sq), area, x, y).0 == SelectionState::Selected(sq),
        spec_step(g, SelectionState::Selected(sq), area, x, y).1 is None,
        forall|prior: render::BufCell, px: int, py: int|
            render::rendered_cell(
                prior,
                g,
                spec_step(g, SelectionState::Selected(sq), area, x, y).0,
                area,
                px,
                py,
            ) == render::rendered_cell(prior, g, SelectionState::Selected(sq), area, px, py),
{
}

} // verus!
