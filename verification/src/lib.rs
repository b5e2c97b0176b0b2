//! A verified engine for two-player tic-tac-toe on a 3x3 grid.
//!
//! The `board` module owns the nine cells and move application together with
//! win detection; the `game` module drives turn progression and derives the
//! overall game state. All input/output lives outside this crate: callers
//! hand in trimmed position labels and print the rendered text themselves.

pub mod board;
pub mod game;
