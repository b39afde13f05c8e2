//! Validators: the rules that decide whether a move is legal on a board.

use vstd::prelude::*;

use crate::board::Board;
use crate::moves::Move;

verus! {

/// A policy that decides whether a move is legal on a board. It holds no
/// game state: its verdict depends on the board and the move alone.
pub trait MoveValidator<B: Board, M: Move> {
    /// Whether `mov` is legal on `board` under this policy.
    spec fn accepts(&self, board: &B, mov: &M) -> bool;

    /// Decides whether `mov` is legal on `board`; `false` is an ordinary verdict.
    fn validate(&self, board: &B, mov: &M) -> (r: bool)
        requires
            board.well_formed(),
        ensures
            r == self.accepts(board, mov),
    ;
}

} // verus!
