//! A terminal snake game: board geometry, steering, and the game's state machine.
//! Everything here is pure logic; driving a terminal is left to the caller.

pub mod board;
pub mod direction;
pub mod game;
pub mod laws;
