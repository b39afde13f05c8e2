//! The orthodox variant: its pieces, its moves and its validator.

pub mod moves;
pub mod piece;
pub mod validator;
