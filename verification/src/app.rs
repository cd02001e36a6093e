//! The application state: the game, the interaction state, and the quit
//! flag the event loop polls.

use vstd::prelude::*;
use crate::engine;
use crate::engine::MyGame;
use crate::model::{MyGameState, SelectionState};

verus! {

/// Everything the running application owns: whether it should exit, the
/// game board, and the interaction state.
#[derive(Debug)]
pub struct App {
    /// should the application exit?
    pub should_quit: bool,
    /// game board
    pub game: MyGame,
    /// interaction state
    pub game_state: MyGameState,
}

impl App {
    /// Every square the interaction state carries is in range.
    pub open spec fn wf(self) -> bool {
        self.game_state.wf()
    }

    /// Constructs a new instance of [`App`]: a fresh game in the
    /// standard starting position, nothing selected, not quitting.
    pub fn new() -> (r: App)
        ensures
            !r.should_quit,
            r.game_state.selection == SelectionState::Empty,
            !engine::game_over_of(r.game.0),
            engine::pieces_of(r.game.0) == engine::starting_position(),
            r.wf(),
    {
        App { should_quit: false, game: MyGame::new(), game_state: MyGameState::new() }
    }

    /// Handles the tick event of the terminal: nothing changes here.
    pub fn tick(&self) {
    }

    /// Set the quit flag, and touch nothing else.
    pub fn quit(&mut self)
        ensures
            final(self).should_quit,
            final(self).game == old(self).game,
            final(self).game_state == old(self).game_state,
    {
        self.should_quit = true;
    }
}

impl Default for App {
    /// Same as [`App::new`].
    fn default() -> (r: App)
        ensures
            !r.should_quit,
            r.game_state.selection == SelectionState::Empty,
            engine::pieces_of(r.game.0) == engine::starting_position(),
            r.wf(),
    {
        App::new()
    }
}

} // verus!
