//! What the front end works out between two keystrokes: the line being
//! typed, what a command does to the game, which squares to mark and in
//! which colours, and where the cursor goes.

pub mod colors;
pub mod game_render;
pub mod prompt;
pub mod terminal;
