use vstd::prelude::*;

verus! {

/// A piece of orthodox chess.
#[derive(Debug, Clone, Copy, PartialEq, Eq, Hash, Structural)]
pub enum StandardPiece {
    Pawn,
    Knight,
    Bishop,
    Rook,
    Queen,
    King,
}

/// The colour of a piece: only two sides are supported.
#[derive(Debug, Clone, Copy, PartialEq, Eq, Hash, Structural)]
pub enum PieceColor {
    White,
    Black,
}

/// A piece together with the side it belongs to; the token of an orthodox board.
#[derive(Debug, Clone, Copy, PartialEq, Eq, Hash, Structural)]
pub struct ColoredStandardPiece {
    pub piece: StandardPiece,
    pub color: PieceColor,
}

impl ColoredStandardPiece {
    pub fn new(piece: StandardPiece, color: PieceColor) -> (r: Self)
        ensures
            r.piece == piece,
            r.color == color,
    {
        ColoredStandardPiece { piece, color }
    }

    pub fn piece(&self) -> (r: StandardPiece)
        ensures
            r == self.piece,
    {
        self.piece
    }

    pub fn color(&self) -> (r: PieceColor)
        ensures
            r == self.color,
    {
        self.color
    }
}

} // verus!
