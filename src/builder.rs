use vstd::prelude::*;

use crate::board::{cell, field, in_board, Board, BoardItem, Grid};

verus! {

/// The codes of the thirteen kinds of cell content.
pub struct BoardItems {
    pub none: BoardItem,
    pub white_pawn: BoardItem,
    pub white_knight: BoardItem,
    pub white_bishop: BoardItem,
    pub white_rook: BoardItem,
    pub white_queen: BoardItem,
    pub white_king: BoardItem,
    pub black_pawn: BoardItem,
    pub black_knight: BoardItem,
    pub black_bishop: BoardItem,
    pub black_rook: BoardItem,
    pub black_queen: BoardItem,
    pub black_king: BoardItem,
}

/// Code of an empty square.
pub const NONE: BoardItem = 0;
pub const WHITE_PAWN: BoardItem = 1;
pub const WHITE_KNIGHT: BoardItem = 2;
pub const WHITE_BISHOP: BoardItem = 3;
pub const WHITE_ROOK: BoardItem = 4;
pub const WHITE_QUEEN: BoardItem = 5;
pub const WHITE_KING: BoardItem = 6;
pub const BLACK_PAWN: BoardItem = 7;
pub const BLACK_KNIGHT: BoardItem = 8;
pub const BLACK_BISHOP: BoardItem = 9;
pub const BLACK_ROOK: BoardItem = 10;
pub const BLACK_QUEEN: BoardItem = 11;
pub const BLACK_KING: BoardItem = 12;

impl BoardItems {
    /// The cell codes: empty, then white and black pawn, knight, bishop, rook,
    /// queen and king, numbered from 0 in that order.
    pub fn standard() -> (r: BoardItems)
        ensures
            r.none == NONE,
            r.white_pawn == WHITE_PAWN,
            r.white_knight == WHITE_KNIGHT,
            r.white_bishop == WHITE_BISHOP,
            r.white_rook == WHITE_ROOK,
            r.white_queen == WHITE_QUEEN,
            r.white_king == WHITE_KING,
            r.black_pawn == BLACK_PAWN,
            r.black_knight == BLACK_KNIGHT,
            r.black_bishop == BLACK_BISHOP,
            r.black_rook == BLACK_ROOK,
            r.black_queen == BLACK_QUEEN,
            r.black_king == BLACK_KING,
    {
        BoardItems {
            none: NONE,
            white_pawn: WHITE_PAWN,
            white_knight: WHITE_KNIGHT,
            white_bishop: WHITE_BISHOP,
            white_rook: WHITE_ROOK,
            white_queen: WHITE_QUEEN,
            white_king: WHITE_KING,
            black_pawn: BLACK_PAWN,
            black_knight: BLACK_KNIGHT,
            black_bishop: BLACK_BISHOP,
            black_rook: BLACK_ROOK,
            black_queen: BLACK_QUEEN,
            black_king: BLACK_KING,
        }
    }
}

/// The packed words of the standard starting layout.
pub const DEFAULT_WORD_0: u64 = 8608480568571377818;
pub const DEFAULT_WORD_3: u64 = 4838381350443618577;

/// The standard starting layout: black's back rank on row 0 (rook, bishop,
/// knight, queen, king, knight, bishop, rook), black pawns on row 1, white
/// pawns on row 6, white's back rank on row 7 (rook, bishop, knight, king,
/// queen, knight, bishop, rook), and every other square empty.
pub open spec fn standard_item(x: int, y: int) -> BoardItem {
    if y == 0 {
        seq![
            BLACK_ROOK,
            BLACK_BISHOP,
            BLACK_KNIGHT,
            BLACK_QUEEN,
            BLACK_KING,
            BLACK_KNIGHT,
            BLACK_BISHOP,
            BLACK_ROOK,
        ][x]
    } else if y == 1 {
        BLACK_PAWN
    } else if y == 6 {
        WHITE_PAWN
    } else if y == 7 {
        seq![
            WHITE_ROOK,
            WHITE_BISHOP,
            WHITE_KNIGHT,
            WHITE_KING,
            WHITE_QUEEN,
            WHITE_KNIGHT,
            WHITE_BISHOP,
            WHITE_ROOK,
        ][x]
    } else {
        NONE
    }
}

/// Builds a board step by step, starting from a fixed layout.
pub struct BoardBuilder {
    board: Board,
}

impl View for BoardBuilder {
    type V = Board;

    closed spec fn view(&self) -> Board {
        self.board
    }
}

/// The four packed words of the standard layout decode to `standard_item`.
proof fn lemma_default_words(board: Board)
    requires
        board[0] == DEFAULT_WORD_0,
        board[1] == 0,
        board[2] == 0,
        board[3] == DEFAULT_WORD_3,
    ensures
        forall|x: int, y: int| in_board(x, y) ==> #[trigger] cell(board, x, y) == standard_item(x, y),
{
    let w0 = DEFAULT_WORD_0;
    let w3 = DEFAULT_WORD_3;
    assert(field(w0, 0) == 10 && field(w0, 4) == 9 && field(w0, 8) == 8 && field(w0, 12) == 11
        && field(w0, 16) == 12 && field(w0, 20) == 8 && field(w0, 24) == 9 && field(w0, 28) == 10
        && field(w0, 32) == 7 && field(w0, 36) == 7 && field(w0, 40) == 7 && field(w0, 44) == 7
        && field(w0, 48) == 7 && field(w0, 52) == 7 && field(w0, 56) == 7 && field(w0, 60) == 7)
        by (bit_vector)
        requires
            w0 == 8608480568571377818u64,
    ;
    assert(field(w3, 0) == 1 && field(w3, 4) == 1 && field(w3, 8) == 1 && field(w3, 12) == 1
        && field(w3, 16) == 1 && field(w3, 20) == 1 && field(w3, 24) == 1 && field(w3, 28) == 1
        && field(w3, 32) == 4 && field(w3, 36) == 3 && field(w3, 40) == 2 && field(w3, 44) == 6
        && field(w3, 48) == 5 && field(w3, 52) == 2 && field(w3, 56) == 3 && field(w3, 60) == 4)
        by (bit_vector)
        requires
            w3 == 4838381350443618577u64,
    ;
    assert(forall|s: u64| #[trigger] field(0, s) == 0) by (bit_vector);
    assert forall|x: int, y: int| in_board(x, y) implies #[trigger] cell(board, x, y)
        == standard_item(x, y) by {
        assert(x == 0 || x == 1 || x == 2 || x == 3 || x == 4 || x == 5 || x == 6 || x == 7);
        assert(y == 0 || y == 1 || y == 2 || y == 3 || y == 4 || y == 5 || y == 6 || y == 7);
    }
}

impl BoardBuilder {
    /// A builder holding a board whose squares are all empty.
    pub fn with_empty() -> (r: Self)
        ensures
            r@ == [0u64, 0, 0, 0],
            forall|x: int, y: int| in_board(x, y) ==> #[trigger] cell(r@, x, y) == NONE,
    {
        let r = BoardBuilder { board: [0, 0, 0, 0] };
        assert(forall|s: u64| #[trigger] field(0, s) == 0) by (bit_vector);
        r
    }

    /// Replaces the board with the standard starting layout.
    pub fn with_defaults(self) -> (r: Self)
        ensures
            r@ == [DEFAULT_WORD_0, 0, 0, DEFAULT_WORD_3],
            forall|x: int, y: int|
                in_board(x, y) ==> #[trigger] cell(r@, x, y) == standard_item(x, y),
    {
        let r = BoardBuilder { board: [DEFAULT_WORD_0, 0, 0, DEFAULT_WORD_3] };
        proof {
            lemma_default_words(r@);
        }
        r
    }

    /// Replaces the board with what `custom_fn` makes of it.
    pub fn with_custom_fn<F>(self, mut custom_fn: F) -> (r: Self)
        where
            F: FnMut(Board) -> Board,
        requires
            custom_fn.requires((self@,)),
        ensures
            custom_fn.ensures((self@,), r@),
    {
        BoardBuilder { board: custom_fn(self.board) }
    }

    /// The board built so far.
    pub fn build(self) -> (r: Board)
        ensures
            r == self@,
    {
        self.board
    }
}

/// Every square of the board that `with_empty` holds reads as empty.
pub proof fn lemma_empty_reads_empty(board: Board, x: int, y: int)
    requires
        board == [0u64, 0, 0, 0],
        in_board(x, y),
    ensures
        board.at(x, y) == NONE,
{
    assert(forall|s: u64| #[trigger] field(0, s) == 0) by (bit_vector);
}

} // verus!
