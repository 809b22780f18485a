//! A toroidal cell grid with a two-threshold neighbour rule, the control
//! state machine that drives it from key presses, and the terminal frames
//! that display it.

pub mod control;
pub mod escape;
pub mod game;
pub mod game_io;
pub mod grid;
