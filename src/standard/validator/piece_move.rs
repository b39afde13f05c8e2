//! The shapes of orthodox piece moves. Only geometry is judged here: neither
//! the destination's occupant nor the squares in between are looked at.

use vstd::prelude::*;

use crate::board::Board;
use crate::square::Square;
use crate::standard::piece::{ColoredStandardPiece, PieceColor, StandardPiece};

verus! {

pub open spec fn abs(x: int) -> int {
    if x < 0 {
        -x
    } else {
        x
    }
}

/// Rows travelled from `from` to `to`, signed.
pub open spec fn row_delta(from: Square, to: Square) -> int {
    to.row - from.row
}

/// Columns travelled from `from` to `to`, signed.
pub open spec fn column_delta(from: Square, to: Square) -> int {
    to.column - from.column
}

/// The row step of a pawn of the given colour.
pub open spec fn forward(color: PieceColor) -> int {
    match color {
        PieceColor::White => 1,
        PieceColor::Black => -1,
    }
}

/// The row on which pawns of the given colour start, on a board `height` rows high.
pub open spec fn home_row(color: PieceColor, height: u16) -> int {
    match color {
        PieceColor::White => 1,
        PieceColor::Black => height - 2,
    }
}

/// A single step forward, a double step from the home row, or a diagonal
/// step forward (the shape of a capture).
pub open spec fn pawn_shape(color: PieceColor, height: u16, from: Square, to: Square) -> bool {
    let f = forward(color);
    if from.column != to.column {
        abs(column_delta(from, to)) == 1 && to.row == from.row + f
    } else if from.row == home_row(color, height) {
        to.row == from.row + f || to.row == from.row + 2 * f
    } else {
        to.row == from.row + f
    }
}

pub open spec fn knight_shape(from: Square, to: Square) -> bool {
    let dr = abs(row_delta(from, to));
    let dc = abs(column_delta(from, to));
    (dr == 1 && dc == 2) || (dr == 2 && dc == 1)
}

pub open spec fn bishop_shape(from: Square, to: Square) -> bool {
    abs(row_delta(from, to)) == abs(column_delta(from, to))
}

/// Along a row or along a column, but not both.
pub open spec fn rook_shape(from: Square, to: Square) -> bool {
    (row_delta(from, to) == 0) != (column_delta(from, to) == 0)
}

pub open spec fn queen_shape(from: Square, to: Square) -> bool {
    bishop_shape(from, to) || rook_shape(from, to)
}

/// At most one square in each direction.
pub open spec fn king_step_shape(from: Square, to: Square) -> bool {
    abs(row_delta(from, to)) <= 1 && abs(column_delta(from, to)) <= 1
}

/// Whether the move of `piece` from `from` to `to` has a legal shape on a
/// board of the given dimensions. King moves are not implemented yet and are
/// never legal.
pub open spec fn movement_legal(
    piece: ColoredStandardPiece,
    width: u16,
    height: u16,
    from: Square,
    to: Square,
) -> bool {
    &&& from.within(width, height)
    &&& to.within(width, height)
    &&& match piece.piece {
        StandardPiece::Pawn => pawn_shape(piece.color, height, from, to),
        StandardPiece::Knight => knight_shape(from, to),
        StandardPiece::Bishop => bishop_shape(from, to),
        StandardPiece::Rook => rook_shape(from, to),
        StandardPiece::Queen => queen_shape(from, to),
        StandardPiece::King => false,
    }
}

/// The eight jumps of a knight, as (rows, columns).
pub open spec fn knight_offsets() -> Set<(int, int)> {
    set![(1, 2), (2, 1), (-1, 2), (-2, 1), (1, -2), (2, -1), (-1, -2), (-2, -1)]
}

/// `square` on the board turned upside down.
pub open spec fn mirrored(square: Square, height: u16) -> Square {
    Square { row: (height - 1 - square.row) as u16, column: square.column }
}

/// A knight's move is exactly one of its eight jumps.
pub proof fn lemma_knight_offsets(from: Square, to: Square)
    ensures
        knight_shape(from, to) <==> knight_offsets().contains(
            (row_delta(from, to), column_delta(from, to)),
        ),
{
}

/// A black pawn moves as a white pawn does on the board turned upside down.
pub proof fn lemma_pawn_mirror(height: u16, from: Square, to: Square)
    requires
        from.row < height,
        to.row < height,
    ensures
        pawn_shape(PieceColor::Black, height, from, to) == pawn_shape(
            PieceColor::White,
            height,
            mirrored(from, height),
            mirrored(to, height),
        ),
{
}

/// How far apart two coordinates are.
fn distance(a: u16, b: u16) -> (r: u16)
    ensures
        r == abs(b - a),
{
    if a > b {
        a - b
    } else {
        b - a
    }
}

/// Whether a pawn of `color` cannot take this shape on a board `board_height`
/// rows high.
pub fn is_pawn_move_illegal(color: PieceColor, board_height: u16, from: Square, to: Square) -> (r:
    bool)
    ensures
        r == !pawn_shape(color, board_height, from, to),
{
    let forward: i32 = if color == PieceColor::White {
        1
    } else {
        -1
    };
    let from_row = from.row as i32;
    let to_row = to.row as i32;
    // A change of column is only a capture: one column aside, one row forward.
    if from.column != to.column {
        return distance(from.column, to.column) != 1 || from_row + forward != to_row;
    }
    let on_home_row = match color {
        PieceColor::White => from.row == 1,
        PieceColor::Black => board_height >= 2 && from.row == board_height - 2,
    };
    if on_home_row {
        return from_row + forward != to_row && from_row + 2 * forward != to_row;
    }
    from_row + forward != to_row
}

/// Whether the move is not one of a knight's jumps.
pub fn is_knight_move_illegal(from: Square, to: Square) -> (r: bool)
    ensures
        r == !knight_shape(from, to),
{
    let row_diff = distance(from.row, to.row);
    let col_diff = distance(from.column, to.column);
    !(row_diff == 1 && col_diff == 2) && !(row_diff == 2 && col_diff == 1)
}

/// Whether the move is not along a diagonal.
pub fn is_bishop_move_illegal(from: Square, to: Square) -> (r: bool)
    ensures
        r == !bishop_shape(from, to),
{
    let row_diff = distance(from.row, to.row);
    let col_diff = distance(from.column, to.column);
    row_diff != col_diff
}

/// Whether the move is not along exactly one of a row or a column.
pub fn is_rook_move_illegal(from: Square, to: Square) -> (r: bool)
    ensures
        r == !rook_shape(from, to),
{
    let row_diff = distance(from.row, to.row);
    let col_diff = distance(from.column, to.column);
    !((row_diff > 0) ^ (col_diff > 0))
}

/// Whether the move is neither a bishop's nor a rook's.
pub fn is_queen_move_illegal(from: Square, to: Square) -> (r: bool)
    ensures
        r == !(bishop_shape(from, to) || rook_shape(from, to)),
{
    is_bishop_move_illegal(from, to) && is_rook_move_illegal(from, to)
}

/// Whether the move is more than one square in some direction. This is the
/// king's step; `is_movement_illegal` does not use it yet.
pub fn is_king_move_illegal(from: Square, to: Square) -> (r: bool)
    ensures
        r == !king_step_shape(from, to),
{
    let row_diff = distance(from.row, to.row);
    let col_diff = distance(from.column, to.column);
    row_diff > 1 || col_diff > 1
}

/// Whether the shape of the move rules it out: either square off the board,
/// or a path the piece cannot take. Nothing else on the board is looked at.
pub fn is_movement_illegal<B: Board<Token = ColoredStandardPiece>>(
    piece: ColoredStandardPiece,
    board: &B,
    from: Square,
    to: Square,
) -> (r: bool)
    requires
        board.well_formed(),
    ensures
        r == !movement_legal(piece, board.grid().width, board.grid().height, from, to),
{
    if !board.valid_square(from) || !board.valid_square(to) {
        return true;
    }
    match piece.piece() {
        StandardPiece::Pawn => is_pawn_move_illegal(piece.color(), board.height(), from, to),
        StandardPiece::Knight => is_knight_move_illegal(from, to),
        StandardPiece::Bishop => is_bishop_move_illegal(from, to),
        StandardPiece::Rook => is_rook_move_illegal(from, to),
        StandardPiece::Queen => is_queen_move_illegal(from, to),
        // King moves are not implemented yet.
        StandardPiece::King => true,
    }
}

} // verus!
