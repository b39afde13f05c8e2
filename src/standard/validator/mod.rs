//! The validator of orthodox chess.

use vstd::prelude::*;

use crate::board::{Board, Grid};
use crate::standard::moves::StandardMove;
use crate::standard::piece::{ColoredStandardPiece, StandardPiece};
use crate::validator::MoveValidator;

pub mod piece_move;

use piece_move::{is_movement_illegal, movement_legal};

verus! {

/// The validator of orthodox chess, for any board whose tokens are the
/// orthodox pieces. It judges the shape of the move so far; turns, captures
/// of one's own pieces, blocked paths and check are not looked at yet.
pub struct StandardMoveValidator {}

/// Whether `mov` is legal on a board with content `grid`: a piece stands on
/// the origin, the move goes somewhere else, and its shape fits the piece.
pub open spec fn standard_move_legal(grid: Grid<ColoredStandardPiece>, mov: StandardMove) -> bool {
    &&& mov.from != mov.to
    &&& match grid.at(mov.from) {
        Some(piece) => movement_legal(piece, grid.width, grid.height, mov.from, mov.to),
        None => false,
    }
}

/// A move to its own origin is never legal, whatever the piece.
pub proof fn lemma_null_move_rejected(grid: Grid<ColoredStandardPiece>, mov: StandardMove)
    requires
        mov.from == mov.to,
    ensures
        !standard_move_legal(grid, mov),
{
}

/// Nothing moves from an empty square, wherever the move goes.
pub proof fn lemma_empty_origin_rejected(grid: Grid<ColoredStandardPiece>, mov: StandardMove)
    requires
        grid.at(mov.from) is None,
    ensures
        !standard_move_legal(grid, mov),
{
}

/// A king is never moved: its moves are not implemented yet.
pub proof fn lemma_king_never_moves(grid: Grid<ColoredStandardPiece>, mov: StandardMove)
    requires
        grid.at(mov.from) matches Some(p) && p.piece == StandardPiece::King,
    ensures
        !standard_move_legal(grid, mov),
{
}

impl<B: Board<Token = ColoredStandardPiece>> MoveValidator<B, StandardMove> for
    StandardMoveValidator {
    open spec fn accepts(&self, board: &B, mov: &StandardMove) -> bool {
        standard_move_legal(board.grid(), *mov)
    }

    fn validate(&self, board: &B, mov: &StandardMove) -> (r: bool) {
        match board.at(mov.from()) {
            Some(piece) => {
                // A piece cannot move to the square it stands on.
                if mov.from() == mov.to() {
                    return false;
                }
                !is_movement_illegal(piece, board, mov.from(), mov.to())
            },
            None => false,
        }
    }
}

} // verus!
