//! The interaction core of a point-and-click chess board.
//!
//! The crate turns pointer input into chess moves: it maps pixels to squares,
//! keeps the selection and the promotion picker, asks the rules engine what is
//! legal, and describes what a renderer has to paint.

pub mod coords;
pub mod draw;
pub mod engine;
pub mod interaction;
pub mod moves;
pub mod pieces;
