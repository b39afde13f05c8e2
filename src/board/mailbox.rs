use vstd::prelude::*;

use crate::board::{Board, BoardError, Grid};
use crate::square::Square;

verus! {

/// A board stored as one flat sequence of slots, row after row, each slot
/// holding a token or nothing.
pub struct MailboxBoard<T> {
    width: u16,
    height: u16,
    tokens: Vec<Option<T>>,
}

/// The slot that holds `square` on a board `width` squares wide.
pub open spec fn slot_of(square: Square, width: u16) -> int {
    square.row * width + square.column
}

proof fn lemma_slot_in_range(square: Square, width: u16, height: u16)
    requires
        square.within(width, height),
    ensures
        0 <= slot_of(square, width) < width * height,
{
    let r = square.row as int;
    let c = square.column as int;
    let w = width as int;
    let h = height as int;
    assert(0 <= r * w + c < h * w) by (nonlinear_arith)
        requires
            0 <= r < h,
            0 <= c < w,
    ;
}

proof fn lemma_slot_injective(a: Square, b: Square, width: u16)
    requires
        a.column < width,
        b.column < width,
        slot_of(a, width) == slot_of(b, width),
    ensures
        a == b,
{
    let w = width as int;
    let ar = a.row as int;
    let br = b.row as int;
    let ac = a.column as int;
    let bc = b.column as int;
    if ar < br {
        assert(ar * w + ac < br * w + bc) by (nonlinear_arith)
            requires
                0 <= ar < br,
                0 <= ac < w,
                0 <= bc,
        ;
    } else if br < ar {
        assert(br * w + bc < ar * w + ac) by (nonlinear_arith)
            requires
                0 <= br < ar,
                0 <= bc < w,
                0 <= ac,
        ;
    }
}

impl<T: Copy> MailboxBoard<T> {
    fn index(&self, row: u16, column: u16) -> (r: usize)
        requires
            self.well_formed(),
            (Square { row, column }).within(self.width, self.height),
        ensures
            r as int == slot_of(Square { row, column }, self.width),
            r < self.tokens@.len(),
    {
        // The slot count is a `usize`, which bounds the arithmetic below.
        let len = self.tokens.len();
        proof {
            lemma_slot_in_range(Square { row, column }, self.width, self.height);
            assert(row as int * self.width as int <= slot_of(Square { row, column }, self.width));
            assert(slot_of(Square { row, column }, self.width) < len);
        }
        row as usize * self.width as usize + column as usize
    }

    /// An empty board of the given dimensions.
    pub fn new(width: u16, height: u16) -> (r: Self)
        ensures
            r.well_formed(),
            r.grid() == Grid::<T>::empty(width, height),
    {
        let ghost w = width as int;
        let ghost h = height as int;
        assert(0 <= w * h <= 65535 * 65535) by (nonlinear_arith)
            requires
                0 <= w <= 65535,
                0 <= h <= 65535,
        ;
        let n = width as usize * height as usize;
        let mut tokens: Vec<Option<T>> = Vec::new();
        let mut i: usize = 0;
        while i < n
            invariant
                i <= n,
                tokens@.len() == i,
                forall|j: int| 0 <= j < i ==> (#[trigger] tokens@[j]) is None,
            decreases n - i,
        {
            tokens.push(None);
            i = i + 1;
        }
        let r = MailboxBoard { width, height, tokens };
        assert forall|s: Square| !(#[trigger] r.grid().cells.contains_key(s)) by {
            if s.within(width, height) {
                lemma_slot_in_range(s, width, height);
            }
        }
        assert(r.grid() =~= Grid::<T>::empty(width, height));
        r
    }
}

impl<T: Copy> Board for MailboxBoard<T> {
    type Token = T;

    closed spec fn grid(&self) -> Grid<T> {
        Grid {
            width: self.width,
            height: self.height,
            cells: Map::new(
                |s: Square|
                    s.within(self.width, self.height) && self.tokens@[slot_of(
                        s,
                        self.width,
                    )] is Some,
                |s: Square| self.tokens@[slot_of(s, self.width)]->Some_0,
            ),
        }
    }

    closed spec fn well_formed(&self) -> bool {
        self.tokens@.len() == self.width * self.height
    }

    fn width(&self) -> (r: u16) {
        self.width
    }

    fn height(&self) -> (r: u16) {
        self.height
    }

    fn valid_square(&self, square: Square) -> (r: bool) {
        square.row < self.height && square.column < self.width
    }

    fn at(&self, square: Square) -> (r: Option<T>) {
        if self.valid_square(square) {
            let i = self.index(square.row, square.column);
            self.tokens[i]
        } else {
            None
        }
    }

    fn set(&mut self, square: Square, token: Option<T>) -> (r: Result<(), BoardError>) {
        if !self.valid_square(square) {
            return Err(
                BoardError::OutOfBounds {
                    row: square.row,
                    column: square.column,
                    width: self.width,
                    height: self.height,
                },
            );
        }
        let i = self.index(square.row, square.column);
        self.tokens.set(i, token);
        proof {
            let w = self.width;
            let new_grid = old(self).grid().set(square, token);
            assert forall|s: Square| #[trigger]
                self.grid().cells.contains_key(s) == new_grid.cells.contains_key(s) && (
                self.grid().cells.contains_key(s) ==> self.grid().cells[s] == new_grid.cells[s]) by {
                if s.within(w, self.height) {
                    lemma_slot_in_range(s, w, self.height);
                    if s != square && slot_of(s, w) == slot_of(square, w) {
                        lemma_slot_injective(s, square, w);
                    }
                }
            }
            assert(self.grid().cells =~= old(self).grid().set(square, token).cells);
            assert(self.grid() =~= old(self).grid().set(square, token));
        }
        Ok(())
    }

    fn clear(&mut self) {
        let n = self.tokens.len();
        let mut i: usize = 0;
        while i < n
            invariant
                i <= n,
                n == self.tokens@.len(),
                self.width == old(self).width,
                self.height == old(self).height,
                self.well_formed(),
                forall|j: int| 0 <= j < i ==> (#[trigger] self.tokens@[j]) is None,
            decreases n - i,
        {
            self.tokens.set(i, None);
            i = i + 1;
        }
        proof {
            assert forall|s: Square| s.within(self.width, self.height) implies (#[trigger] slot_of(
                s,
                self.width,
            )) < n by {
                lemma_slot_in_range(s, self.width, self.height);
            }
            assert(self.grid() =~= old(self).grid().cleared());
        }
    }

    fn make_move(&mut self, from: Square, to: Square) -> (r: Result<(), BoardError>) {
        if !self.valid_square(from) {
            return Err(BoardError::SourceOutOfBounds { row: from.row, column: from.column });
        }
        if !self.valid_square(to) {
            return Err(BoardError::DestinationOutOfBounds { row: to.row, column: to.column });
        }
        match self.at(from) {
            Some(token) => {
                let _ = self.set(from, None);
                let _ = self.set(to, Some(token));
            },
            None => {},
        }
        Ok(())
    }
}

} // verus!
