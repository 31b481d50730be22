//! Rules engine for a falling-block puzzle game.
//!
//! The library owns the playfield grid, the active tetromino, movement and
//! rotation legality, piece locking, row clearing, and scoring.  Every public
//! operation carries a contract; rendering and input handling are left to the
//! host program, which drives the engine through `command` and `tick` and
//! reads back snapshots of its state.

pub mod grid;
pub mod rustris;
pub mod score;
pub mod spawn;
pub mod tetromino;
pub mod types;
pub mod util;
