//! The orthodox move and its validator, under the path of the moves module.

pub use crate::standard::moves::StandardMove;
pub use crate::standard::validator::StandardMoveValidator;
