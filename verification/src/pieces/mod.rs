pub mod bishop;
pub mod horse;
pub mod piece;
pub mod slide;
pub mod squares;
pub mod tower;
