//! Core of a falling-block puzzle game: a rectangular board of locked cells,
//! one falling four-cell piece, collision against walls and settled blocks,
//! gravity and lock-delay timing, and full-row clearing.  The whole simulation
//! is a deterministic state machine driven by `tick` and `apply_command`;
//! rendering and input mapping are the caller's concern.

pub mod piece;
pub mod grid;
pub mod collision;
pub mod spawn;
pub mod fall;
pub mod game;
