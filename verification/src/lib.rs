//! Connect Four: the board, the rules of a move and of a win, and the
//! decisions that the game server and its web client take around them.

pub mod board;
pub mod client;
pub mod game;
pub mod ids;
pub mod rules;
pub mod server;
pub mod win;
