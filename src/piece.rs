//! The orthodox piece set under its plain names.

use vstd::prelude::*;

pub use crate::standard::piece::PieceColor;

verus! {

/// A kind of orthodox chess piece.
pub type Piece = crate::standard::piece::StandardPiece;

/// A piece with its colour.
pub type ColoredPiece = crate::standard::piece::ColoredStandardPiece;

} // verus!
