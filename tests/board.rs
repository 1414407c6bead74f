use rs_chess::board::{Board, Grid, GridError};
use rs_chess::builder::{BoardBuilder, BoardItems};

#[test]
fn board_get_retrieves_piece_at_given_position() {
    let mut board = BoardBuilder::with_empty().build();
    board[0] =
        0b0000_0000_0000_0000_0000_0000_0000_0000__1100_0000_0000_0000_0000_0000_0000_0001;
    board[1] =
        0b0000_0000_0000_0000_0000_0000_0000_0000__0000_0000_0000_0000_0000_0001_0000_0000;
    board[2] =
        0b0000_0000_0000_0000_0000_0000_0000_0000__0000_0000_0000_0000_0000_0000_0000_0000;
    board[3] =
        0b1111_0000_0001_0000_0000_0000_0000_0000__0000_0000_0000_0000_0000_0000_0000_0000;
    assert_eq!(board.get(0, 0).unwrap(), 0b0001);
    assert_eq!(board.get(7, 0).unwrap(), 0b1100);
    assert_eq!(board.get(2, 2).unwrap(), 0b0001);
    assert_eq!(board.get(5, 7).unwrap(), 0b0001);
    assert_eq!(board.get(6, 7).unwrap(), 0b0000);
    assert_eq!(board.get(7, 7).unwrap(), 0b1111);
}

#[test]
fn board_set_places_piece_at_given_position() {
    let board_items = BoardItems::standard();
    let mut board = BoardBuilder::with_empty().build();
    board.set(0, 0, board_items.white_pawn);
    assert_eq!(board.get(0, 0).unwrap(), board_items.white_pawn);
    board.set(0, 0, board_items.black_bishop);
    assert_eq!(board.get(0, 0).unwrap(), board_items.black_bishop);
    board.set(0, 0, board_items.none);
    assert_eq!(board.get(0, 0).unwrap(), board_items.none);
    board.set(3, 3, board_items.white_queen);
    assert_eq!(board.get(3, 3).unwrap(), board_items.white_queen);
    board.set(7, 7, board_items.black_king);
    assert_eq!(board.get(7, 7).unwrap(), board_items.black_king);
}

#[test]
fn board_get_errors_when_out_of_range() {
    let board = BoardBuilder::with_empty().build();
    assert!(board.get(8, 0).is_err());
    assert!(board.get(0, 8).is_err());
    assert!(board.get(25, 23).is_err());
}

#[test]
fn board_set_errors_when_out_of_range() {
    let board_items = BoardItems::standard();
    let mut board = BoardBuilder::with_empty().build();
    assert!(board.set(8, 0, board_items.white_pawn).is_some());
    assert!(board.set(0, 8, board_items.white_pawn).is_some());
    assert!(board.set(25, 23, board_items.white_pawn).is_some());
}

#[test]
fn board_builder_with_defaults_produces_a_standard_chess_board() {
    let board_items = BoardItems::standard();
    let board = BoardBuilder::with_empty().with_defaults().build();
    assert_eq!(board.get(0, 0).unwrap(), board_items.black_rook);
    assert_eq!(board.get(1, 0).unwrap(), board_items.black_bishop);
    assert_eq!(board.get(2, 0).unwrap(), board_items.black_knight);
    assert_eq!(board.get(3, 0).unwrap(), board_items.black_queen);
    assert_eq!(board.get(4, 0).unwrap(), board_items.black_king);
    assert_eq!(board.get(5, 0).unwrap(), board_items.black_knight);
    assert_eq!(board.get(6, 0).unwrap(), board_items.black_bishop);
    assert_eq!(board.get(7, 0).unwrap(), board_items.black_rook);
    assert_eq!(board.get(0, 1).unwrap(), board_items.black_pawn);
    assert_eq!(board.get(1, 1).unwrap(), board_items.black_pawn);
    assert_eq!(board.get(2, 1).unwrap(), board_items.black_pawn);
    assert_eq!(board.get(3, 1).unwrap(), board_items.black_pawn);
    assert_eq!(board.get(4, 1).unwrap(), board_items.black_pawn);
    assert_eq!(board.get(5, 1).unwrap(), board_items.black_pawn);
    assert_eq!(board.get(6, 1).unwrap(), board_items.black_pawn);
    assert_eq!(board.get(7, 1).unwrap(), board_items.black_pawn);
    assert_eq!(board.get(0, 6).unwrap(), board_items.white_pawn);
    assert_eq!(board.get(1, 6).unwrap(), board_items.white_pawn);
    assert_eq!(board.get(2, 6).unwrap(), board_items.white_pawn);
    assert_eq!(board.get(3, 6).unwrap(), board_items.white_pawn);
    assert_eq!(board.get(4, 6).unwrap(), board_items.white_pawn);
    assert_eq!(board.get(5, 6).unwrap(), board_items.white_pawn);
    assert_eq!(board.get(6, 6).unwrap(), board_items.white_pawn);
    assert_eq!(board.get(7, 6).unwrap(), board_items.white_pawn);
    assert_eq!(board.get(0, 7).unwrap(), board_items.white_rook);
    assert_eq!(board.get(1, 7).unwrap(), board_items.white_bishop);
    assert_eq!(board.get(2, 7).unwrap(), board_items.white_knight);
    assert_eq!(board.get(3, 7).unwrap(), board_items.white_king);
    assert_eq!(board.get(4, 7).unwrap(), board_items.white_queen);
    assert_eq!(board.get(5, 7).unwrap(), board_items.white_knight);
    assert_eq!(board.get(6, 7).unwrap(), board_items.white_bishop);
    assert_eq!(board.get(7, 7).unwrap(), board_items.white_rook);
}

#[test]
fn round_trip_every_square_and_value() {
    for y in 0..8usize {
        for x in 0..8usize {
            for v in 0..16u8 {
                let mut board = BoardBuilder::with_empty().with_defaults().build();
                assert!(board.set(x, y, v).is_none());
                assert_eq!(board.get(x, y).unwrap(), v);
            }
        }
    }
}

#[test]
fn setting_one_square_keeps_the_others() {
    let before = BoardBuilder::with_empty().with_defaults().build();
    for y in 0..8usize {
        for x in 0..8usize {
            let mut after = before;
            after.set(x, y, 13);
            for j in 0..8usize {
                for i in 0..8usize {
                    if i != x || j != y {
                        assert_eq!(after.get(i, j).unwrap(), before.get(i, j).unwrap());
                    }
                }
            }
        }
    }
}

#[test]
fn set_out_of_range_changes_nothing() {
    let mut board = BoardBuilder::with_empty().with_defaults().build();
    let before = board;
    assert!(board.set(8, 0, 1).is_some());
    assert!(board.set(0, 8, 1).is_some());
    assert!(board.set(25, 23, 1).is_some());
    assert_eq!(board, before);
}

#[test]
fn bounds_error_carries_coordinates_and_message() {
    let board = BoardBuilder::with_empty().build();
    let err: GridError = board.get(25, 23).unwrap_err();
    assert_eq!(err.x, 25);
    assert_eq!(err.y, 23);
    assert_eq!(err.message, "Coordinates [25, 23] out of bounds");
    assert_eq!(err.to_string(), "Error: Coordinates [25, 23] out of bounds.");
    let mut board = board;
    let err = board.set(8, 0, 3).unwrap();
    assert_eq!(err.message, "Coordinates [8, 0] out of bounds");
}

#[test]
fn empty_builder_reads_empty_everywhere() {
    let board = BoardBuilder::with_empty().build();
    assert_eq!(board, [0u64, 0, 0, 0]);
    for y in 0..8usize {
        for x in 0..8usize {
            assert_eq!(board.get(x, y).unwrap(), 0);
        }
    }
}

#[test]
fn defaults_leave_middle_rows_empty() {
    let board = BoardBuilder::with_empty().with_defaults().build();
    for y in 2..6usize {
        for x in 0..8usize {
            assert_eq!(board.get(x, y).unwrap(), 0);
        }
    }
}

#[test]
fn queen_and_king_on_empty_board() {
    let board_items = BoardItems::standard();
    let mut board = BoardBuilder::with_empty().build();
    assert!(board.set(3, 3, board_items.white_queen).is_none());
    assert!(board.set(7, 7, board_items.black_king).is_none());
    assert_eq!(board.get(3, 3).unwrap(), board_items.white_queen);
    assert_eq!(board.get(7, 7).unwrap(), board_items.black_king);
    for y in 0..8usize {
        for x in 0..8usize {
            if (x, y) != (3, 3) && (x, y) != (7, 7) {
                assert_eq!(board.get(x, y).unwrap(), 0);
            }
        }
    }
}

#[test]
fn wide_value_keeps_low_bits_and_neighbours() {
    let mut board = BoardBuilder::with_empty().build();
    assert!(board.set(4, 2, 0xff).is_none());
    assert_eq!(board.get(4, 2).unwrap(), 0x0f);
    assert_eq!(board.get(3, 2).unwrap(), 0);
    assert_eq!(board.get(5, 2).unwrap(), 0);
    assert_eq!(board, [0u64, 0xf << 16, 0, 0]);
}

#[test]
fn unchecked_access_uses_the_packed_layout() {
    let mut board: Board = [0, 0, 0, 0];
    board.set_unchecked(7, 2, 9);
    assert_eq!(board, [0u64, 9 << 28, 0, 0]);
    assert_eq!(board.get_unchecked(7, 2), 9);
    assert_eq!(board.get_unchecked(0, 0), 0);
}

#[test]
fn custom_fn_transforms_the_board() {
    let board = BoardBuilder::with_empty()
        .with_custom_fn(|mut b: Board| {
            b[2] = 0x21;
            b
        })
        .build();
    assert_eq!(board.get(0, 4).unwrap(), 1);
    assert_eq!(board.get(1, 4).unwrap(), 2);
}
