//! The board of a two-player game of checkers: squares, a cursor that walks
//! the playable squares, and the protocol by which a piece is picked up and
//! moved or made to capture.

pub mod cell;
pub mod state;
pub mod board;
pub mod laws;
