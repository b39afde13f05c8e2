use skaki_chess::board::mailbox::MailboxBoard;
use skaki_chess::board::{Board, BoardError};
use skaki_chess::square::Square;

// Anything can be a piece.
#[derive(Debug, Clone, Copy, Eq, PartialEq)]
enum Piece {
    Bob,
    Alice,
}

#[test]
fn simple_board() {
    let mut board = MailboxBoard::new(4, 4);
    // Size should be correct
    assert_eq!(board.width(), 4);
    assert_eq!(board.height(), 4);

    board.set(Square::new(0, 0), Some(Piece::Bob)).expect("Should be able to set pieces on valid squares.");
    board.set(Square::new(2, 2), Some(Piece::Alice)).expect("Should be able to set pieces on valid squares.");

    // Should be able to retrieve the pieces again
    assert_eq!(board.at(Square::new(0, 0)), Some(Piece::Bob));
    assert_eq!(board.at(Square::new(2, 2)), Some(Piece::Alice));
    // Squares that were not set should be empty
    assert_eq!(board.at(Square::new(2, 1)), None);
}

#[test]
fn out_of_bounds() {
    let mut board = MailboxBoard::<Piece>::new(4, 4);

    assert!(board.at(Square::new(10, 10)).is_none());
    assert!(board.set(Square::new(10, 10), Some(Piece::Alice)).is_err());
}

#[test]
fn clear_board() {
    let mut board = MailboxBoard::new(4, 4);
    board.set(Square::new(0, 0), Some(Piece::Bob)).expect("Should be able to set pieces on valid squares.");
    board.clear();
    assert_eq!(board.at(Square::new(0, 0)), None);
}

#[test]
fn set_then_at_on_every_square() {
    let mut board = MailboxBoard::new(5, 3);
    for row in 0..3u16 {
        for column in 0..5u16 {
            let piece = if (row + column) % 2 == 0 { Piece::Bob } else { Piece::Alice };
            board.set(Square::new(row, column), Some(piece)).unwrap();
            assert_eq!(board.at(Square::new(row, column)), Some(piece));
        }
    }
    board.set(Square::new(1, 1), None).unwrap();
    assert_eq!(board.at(Square::new(1, 1)), None);
    assert_eq!(board.at(Square::new(1, 2)), Some(Piece::Alice));
    board.clear();
    for row in 0..3u16 {
        for column in 0..5u16 {
            assert_eq!(board.at(Square::new(row, column)), None);
        }
    }
}

#[test]
fn out_of_bounds_error_names_square_and_size() {
    let mut board = MailboxBoard::<Piece>::new(4, 3);
    assert_eq!(
        board.set(Square::new(3, 0), Some(Piece::Bob)),
        Err(BoardError::OutOfBounds { row: 3, column: 0, width: 4, height: 3 })
    );
    assert_eq!(
        board.set(Square::new(0, 4), Some(Piece::Bob)),
        Err(BoardError::OutOfBounds { row: 0, column: 4, width: 4, height: 3 })
    );
    assert_eq!(board.at(Square::new(0, 4)), None);
    assert_eq!(board.at(Square::new(3, 0)), None);
}

#[test]
fn column_past_the_edge_is_not_valid() {
    let board = MailboxBoard::<Piece>::new(4, 4);
    // Row 0, column 5 would fall inside the slot range but is off the board.
    assert!(!board.valid_square(Square::new(0, 5)));
    assert!(!board.valid_square(Square::new(4, 0)));
    assert!(board.valid_square(Square::new(3, 3)));
    assert!(board.valid_square(Square::new(0, 0)));
}

#[test]
fn wide_board_slots_do_not_overlap() {
    let mut board = MailboxBoard::new(300, 300);
    board.set(Square::new(299, 299), Some(Piece::Bob)).unwrap();
    board.set(Square::new(298, 299), Some(Piece::Alice)).unwrap();
    assert_eq!(board.at(Square::new(299, 299)), Some(Piece::Bob));
    assert_eq!(board.at(Square::new(298, 299)), Some(Piece::Alice));
    assert_eq!(board.at(Square::new(299, 298)), None);
}

#[test]
fn make_move_carries_token_and_empties_origin() {
    let mut board = MailboxBoard::new(4, 4);
    board.set(Square::new(0, 0), Some(Piece::Bob)).unwrap();
    board.set(Square::new(1, 1), Some(Piece::Alice)).unwrap();
    assert_eq!(board.make_move(Square::new(0, 0), Square::new(1, 1)), Ok(()));
    assert_eq!(board.at(Square::new(0, 0)), None);
    assert_eq!(board.at(Square::new(1, 1)), Some(Piece::Bob));
}

#[test]
fn make_move_from_empty_square_does_nothing() {
    let mut board = MailboxBoard::new(4, 4);
    board.set(Square::new(2, 2), Some(Piece::Alice)).unwrap();
    assert_eq!(board.make_move(Square::new(0, 0), Square::new(2, 2)), Ok(()));
    assert_eq!(board.at(Square::new(2, 2)), Some(Piece::Alice));
    assert_eq!(board.at(Square::new(0, 0)), None);
}

#[test]
fn make_move_onto_own_square_keeps_token() {
    let mut board = MailboxBoard::new(4, 4);
    board.set(Square::new(3, 1), Some(Piece::Bob)).unwrap();
    assert_eq!(board.make_move(Square::new(3, 1), Square::new(3, 1)), Ok(()));
    assert_eq!(board.at(Square::new(3, 1)), Some(Piece::Bob));
}

#[test]
fn make_move_out_of_bounds() {
    let mut board = MailboxBoard::new(4, 4);
    board.set(Square::new(0, 0), Some(Piece::Bob)).unwrap();
    assert_eq!(
        board.make_move(Square::new(4, 0), Square::new(0, 0)),
        Err(BoardError::SourceOutOfBounds { row: 4, column: 0 })
    );
    assert_eq!(
        board.make_move(Square::new(0, 0), Square::new(0, 7)),
        Err(BoardError::DestinationOutOfBounds { row: 0, column: 7 })
    );
    // A failed move leaves the board as it was.
    assert_eq!(board.at(Square::new(0, 0)), Some(Piece::Bob));
    assert_eq!(
        board.make_move(Square::new(1, 1), Square::new(9, 9)),
        Err(BoardError::DestinationOutOfBounds { row: 9, column: 9 })
    );
}
