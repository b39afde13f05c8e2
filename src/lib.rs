//! Rules engine for grid-based chess-like games: a generic board, a move
//! representation and a validator for the shapes of orthodox piece moves.

pub mod board;
pub mod moves;
pub mod piece;
pub mod square;
pub mod standard;
pub mod validator;
