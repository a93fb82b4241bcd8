//! The rules of a one-screen arcade shooter: a ship that moves and fires
//! upward, a pool of ten descending enemies that fire back, the shots of
//! both sides, collisions, lives, score and the play / pause / game over
//! cycle. Positions and sprite sizes are whole screen units; drawing, sound,
//! input and the window belong to the caller.

pub mod enemies;
pub mod game;
pub mod geometry;
pub mod player;
mod random;
pub mod shots;
