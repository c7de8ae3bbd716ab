//! Rules of a falling-block puzzle: a ten by twenty grid, seven piece shapes
//! dealt from shuffled bags, moves, wall-kicked rotation, gravity, locking,
//! line clearing and scoring.

pub mod bag;
pub mod game;
pub mod tetromino;
