//! Rules of a small chess-like board game: an 8x8 board, three kinds of
//! pieces with their movement rules, and the click-driven selection state
//! machine that moves them.

pub mod board;
pub mod game;
pub mod laws;
pub mod layout;
pub mod moves;
pub mod pieces;
