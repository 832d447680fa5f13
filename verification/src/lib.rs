//! Core logic for a 3x3 tic-tac-toe game: the board, the win detector,
//! and the turn state machine, independent of any rendering or input layer.

pub mod board;
pub mod game;
pub mod win;
