//! An interactive terminal chess-board view: coordinate mapping between
//! screen space and board squares, a selection state machine, legality
//! queries delegated to an external rules engine, and a cell-accurate
//! renderer that paints the board into an owned character buffer.

pub mod app;
pub mod coords;
pub mod engine;
pub mod handler;
pub mod model;
pub mod render;
