//! Boards: rectangular grids of squares, each empty or holding one token.

use vstd::prelude::*;

use crate::square::Square;

pub mod mailbox;

verus! {

/// The abstract content of a board: its dimensions and the token on each
/// occupied square.
#[verifier::ext_equal]
pub struct Grid<T> {
    pub width: u16,
    pub height: u16,
    pub cells: Map<Square, T>,
}

impl<T> Grid<T> {
    /// An empty grid of the given dimensions.
    pub open spec fn empty(width: u16, height: u16) -> Grid<T> {
        Grid { width, height, cells: Map::empty() }
    }

    pub open spec fn contains(self, square: Square) -> bool {
        square.within(self.width, self.height)
    }

    /// Only squares on the board hold tokens.
    pub open spec fn wf(self) -> bool {
        forall|s: Square| #[trigger] self.cells.contains_key(s) ==> self.contains(s)
    }

    pub open spec fn at(self, square: Square) -> Option<T> {
        if self.cells.contains_key(square) {
            Some(self.cells[square])
        } else {
            None
        }
    }

    /// The grid with `square` holding `token` (or emptied, for `None`).
    pub open spec fn set(self, square: Square, token: Option<T>) -> Grid<T> {
        Grid {
            cells: match token {
                Some(t) => self.cells.insert(square, t),
                None => self.cells.remove(square),
            },
            ..self
        }
    }

    /// The grid with every square empty.
    pub open spec fn cleared(self) -> Grid<T> {
        Grid::empty(self.width, self.height)
    }

    /// The token on `from`, if any, carried to `to`, leaving `from` empty.
    pub open spec fn moved(self, from: Square, to: Square) -> Grid<T> {
        match self.at(from) {
            Some(t) => self.set(from, None).set(to, Some(t)),
            None => self,
        }
    }
}

/// Reading a square just after writing to it gives back what was written.
pub proof fn lemma_at_after_set<T>(grid: Grid<T>, square: Square, token: Option<T>)
    ensures
        grid.set(square, token).at(square) == token,
{
}

/// Writing to a square leaves every other square as it was.
pub proof fn lemma_set_keeps_others<T>(grid: Grid<T>, square: Square, token: Option<T>, other: Square)
    requires
        other != square,
    ensures
        grid.set(square, token).at(other) == grid.at(other),
{
}

/// After a clear every square reads empty.
pub proof fn lemma_cleared_is_empty<T>(grid: Grid<T>, square: Square)
    ensures
        grid.cleared().at(square) is None,
{
}

/// Why a write to a board was refused.
#[derive(Debug, Clone, Copy, PartialEq, Eq, Hash, Structural)]
pub enum BoardError {
    /// The square lies outside a board of the given width and height.
    OutOfBounds { row: u16, column: u16, width: u16, height: u16 },
    /// The origin of a move lies outside the board.
    SourceOutOfBounds { row: u16, column: u16 },
    /// The destination of a move lies outside the board.
    DestinationOutOfBounds { row: u16, column: u16 },
}

/// A rectangular board of fixed dimensions whose squares each hold at most
/// one token.
pub trait Board: Sized {
    /// What stands on a square: a piece, or a marker of some variant.
    type Token;

    /// The board's content.
    spec fn grid(&self) -> Grid<Self::Token>;

    /// The representation is consistent.
    spec fn well_formed(&self) -> bool;

    fn width(&self) -> (r: u16)
        requires
            self.well_formed(),
        ensures
            r == self.grid().width,
    ;

    fn height(&self) -> (r: u16)
        requires
            self.well_formed(),
        ensures
            r == self.grid().height,
    ;

    /// Whether the square lies on the board.
    fn valid_square(&self, square: Square) -> (r: bool)
        requires
            self.well_formed(),
        ensures
            r == self.grid().contains(square),
    ;

    /// The token on the square; `None` for an empty square and for a square
    /// outside the board.
    fn at(&self, square: Square) -> (r: Option<Self::Token>)
        requires
            self.well_formed(),
        ensures
            r == self.grid().at(square),
            !self.grid().contains(square) ==> r is None,
    ;

    /// Puts the token on the square, or empties it for `None`; fails for a
    /// square outside the board, which is then left unchanged.
    fn set(&mut self, square: Square, token: Option<Self::Token>) -> (r: Result<(), BoardError>)
        requires
            old(self).well_formed(),
        ensures
            final(self).well_formed(),
            old(self).grid().contains(square) ==> r is Ok && final(self).grid() == old(
                self,
            ).grid().set(square, token),
            !old(self).grid().contains(square) ==> r == Err::<(), BoardError>(
                BoardError::OutOfBounds {
                    row: square.row,
                    column: square.column,
                    width: old(self).grid().width,
                    height: old(self).grid().height,
                },
            ) && final(self).grid() == old(self).grid(),
    ;

    /// Empties every square.
    fn clear(&mut self)
        requires
            old(self).well_formed(),
        ensures
            final(self).well_formed(),
            final(self).grid() == old(self).grid().cleared(),
    ;

    /// Carries the token on `from`, if any, to `to`, overwriting what stood
    /// there and emptying `from`. Legality is not checked. Fails, leaving the
    /// board unchanged, when either square lies outside the board.
    fn make_move(&mut self, from: Square, to: Square) -> (r: Result<(), BoardError>)
        requires
            old(self).well_formed(),
        ensures
            final(self).well_formed(),
            !old(self).grid().contains(from) ==> r == Err::<(), BoardError>(
                BoardError::SourceOutOfBounds { row: from.row, column: from.column },
            ),
            old(self).grid().contains(from) && !old(self).grid().contains(to) ==> r == Err::<
                (),
                BoardError,
            >(BoardError::DestinationOutOfBounds { row: to.row, column: to.column }),
            r is Ok <==> old(self).grid().contains(from) && old(self).grid().contains(to),
            r is Ok ==> final(self).grid() == old(self).grid().moved(from, to),
            r is Err ==> final(self).grid() == old(self).grid(),
    ;
}

} // verus!
