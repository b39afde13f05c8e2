use vstd::prelude::*;

use crate::moves::Move;
use crate::square::Square;
use crate::standard::piece::StandardPiece;

verus! {

/// A move of orthodox chess: from one square to another, with the piece a
/// pawn turns into when it promotes. Which piece moves follows from the
/// board. Nothing about legality is checked when a move is made up.
#[derive(Debug, Clone, Copy, PartialEq, Eq, Hash, Structural)]
pub struct StandardMove {
    pub from: Square,
    pub to: Square,
    pub promotion: Option<StandardPiece>,
}

impl StandardMove {
    /// A move from `from` to `to` without promotion.
    pub fn new(from: Square, to: Square) -> (r: Self)
        ensures
            r == (StandardMove { from, to, promotion: None }),
    {
        StandardMove { from, to, promotion: None }
    }

    /// A move from `from` to `to` that promotes to `promotion`.
    pub fn promote(from: Square, to: Square, promotion: StandardPiece) -> (r: Self)
        ensures
            r == (StandardMove { from, to, promotion: Some(promotion) }),
    {
        StandardMove { from, to, promotion: Some(promotion) }
    }

    pub fn from(&self) -> (r: Square)
        ensures
            r == self.from,
    {
        self.from
    }

    pub fn to(&self) -> (r: Square)
        ensures
            r == self.to,
    {
        self.to
    }

    pub fn promotion(&self) -> (r: Option<StandardPiece>)
        ensures
            r == self.promotion,
    {
        self.promotion
    }
}

impl Move for StandardMove {

}

} // verus!
