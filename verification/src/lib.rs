//! Rules of chess for a terminal front end: the board and its tiles, the move
//! rules of each piece kind, check and checkmate, the game's state machine,
//! and the line prompt with the commands it can hold.

pub mod draw;
pub mod logic;
pub mod utils;
