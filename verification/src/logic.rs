//! The rules: primitives, board, piece rules, game, and the commands of the
//! players.

pub mod basic;
pub mod board;
pub mod game;
pub mod intent;
pub mod laws;
pub mod pieces;
