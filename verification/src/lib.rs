//! A game of tic-tac-toe: the board and its rules, the computer opponents,
//! and the state machines behind the terminal interface.

pub mod game;
pub mod player;
pub mod renderer;
