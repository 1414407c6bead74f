use vstd::prelude::*;

verus! {

/// Four 64-bit words holding 64 cells of 4 bits each, row by row.
pub type Board = [u64; 4];

/// The code stored in one cell: 0 is an empty square.
pub type BoardItem = u8;

/// Width (and height) of the square board.
pub const BOARD_WIDTH: usize = 8;

/// Number of bits that one cell occupies.
pub const BOARD_ITEM_BITS: usize = 4;

/// Mask selecting the bits of one cell.
pub const BOARD_ITEM_MASK: usize = 15;

/// Number of cells packed into one word.
pub const CELLS_PER_WORD: usize = 16;

/// A coordinate pair that addresses a square of the board.
pub open spec fn in_board(x: int, y: int) -> bool {
    0 <= x < BOARD_WIDTH && 0 <= y < BOARD_WIDTH
}

/// Row-major flattened index of a square.
pub open spec fn position_of(x: int, y: int) -> int {
    y * BOARD_WIDTH + x
}

/// Index of the word that holds the cell at `pos`.
pub open spec fn word_of(pos: int) -> int {
    pos / CELLS_PER_WORD as int
}

/// Bit offset, inside its word, of the cell at `pos`.
pub open spec fn shift_of(pos: int) -> int {
    (pos % CELLS_PER_WORD as int) * BOARD_ITEM_BITS
}

/// The 4-bit field of `word` that starts at bit `shift`.
pub open spec fn field(word: u64, shift: u64) -> u64 {
    (word >> shift) & 0xf
}

/// The code of the cell at flattened index `pos`.
pub open spec fn cell_at(board: Board, pos: int) -> BoardItem {
    field(board[word_of(pos)], shift_of(pos) as u64) as u8
}

/// The code of the square `(x, y)`.
pub open spec fn cell(board: Board, x: int, y: int) -> BoardItem {
    cell_at(board, position_of(x, y))
}

/// What a cell keeps of a value written to it: its low four bits.
pub open spec fn kept(value: BoardItem) -> BoardItem {
    (value % 16) as u8
}


/// The decimal digit `d` as a character.
pub open spec fn digit_char(d: nat) -> char {
    seq!['0', '1', '2', '3', '4', '5', '6', '7', '8', '9'][d as int]
}

/// Decimal notation of `n`, without sign or leading zeros.
pub open spec fn decimal(n: nat) -> Seq<char>
    decreases n,
{
    if n < 10 {
        seq![digit_char(n)]
    } else {
        decimal(n / 10).push(digit_char(n % 10))
    }
}

/// The message of a bounds error at `(x, y)`: `Coordinates [x, y] out of bounds`.
pub open spec fn bounds_text(x: usize, y: usize) -> Seq<char> {
    "Coordinates ["@ + decimal(x as nat) + ", "@ + decimal(y as nat) + "] out of bounds"@
}

/// Relies on `usize`'s `to_string` (its `Display`): decimal notation of the number.
#[verifier::external_body]
fn usize_to_string(n: usize) -> (r: String)
    ensures
        r@ == decimal(n as nat),
{
    n.to_string()
}

/// Coordinates that lie outside the board, as reported by the checked accessors.
#[derive(Debug)]
pub struct GridError {
    pub x: usize,
    pub y: usize,
    pub message: String,
}

impl GridError {
    /// The error for `(x, y)` with its message filled in.
    pub open spec fn describes(&self, x: usize, y: usize) -> bool {
        &&& self.x == x
        &&& self.y == y
        &&& self.message@ == bounds_text(x, y)
    }

    /// Builds the error reported for the coordinates `(x, y)`.
    pub fn out_of_bounds(x: usize, y: usize) -> (r: GridError)
        ensures
            r.describes(x, y),
    {
        let mut message = String::from_str("Coordinates [");
        let xs = usize_to_string(x);
        message.append(xs.as_str());
        message.append(", ");
        let ys = usize_to_string(y);
        message.append(ys.as_str());
        message.append("] out of bounds");
        GridError { x, y, message }
    }

    /// The text shown for this error: `Error: <message>.`
    pub fn to_string(&self) -> (r: String)
        ensures
            r@ == "Error: "@ + self.message@ + "."@,
    {
        let mut text = String::from_str("Error: ");
        text.append(self.message.as_str());
        text.append(".");
        text
    }
}


/// A two-dimensional grid of values of type `T`, read and written by coordinates.
pub trait Grid<T>: Sized {
    /// Whether `(x, y)` addresses a square of the grid.
    spec fn valid(x: int, y: int) -> bool;

    /// The value held at square `(x, y)`.
    spec fn at(&self, x: int, y: int) -> T;

    /// What a square keeps of a value written to it.
    spec fn stored(value: T) -> T;

    /// Reads square `(x, y)`, which the caller guarantees to be on the grid.
    /// Off-grid coordinates are outside the contract: on a `Board` they index
    /// past its four words, which panics.
    fn get_unchecked(&self, x: usize, y: usize) -> (r: T)
        requires
            Self::valid(x as int, y as int),
        ensures
            r == self.at(x as int, y as int),
    ;

    /// Writes square `(x, y)`, which the caller guarantees to be on the grid,
    /// and leaves every other square as it was.
    fn set_unchecked(&mut self, x: usize, y: usize, value: T)
        requires
            Self::valid(x as int, y as int),
        ensures
            forall|i: int, j: int|
                Self::valid(i, j) ==> #[trigger] final(self).at(i, j) == if i == x && j == y {
                    Self::stored(value)
                } else {
                    old(self).at(i, j)
                },
    ;

    /// Reads square `(x, y)`, or reports coordinates that lie off the grid.
    fn get(&self, x: usize, y: usize) -> (r: Result<T, GridError>)
        ensures
            r is Ok <==> Self::valid(x as int, y as int),
            r is Ok ==> r->Ok_0 == self.at(x as int, y as int),
            r is Err ==> r->Err_0.describes(x, y),
    ;

    /// Writes square `(x, y)` and returns `None`, or returns the error and
    /// changes nothing when the coordinates lie off the grid.
    fn set(&mut self, x: usize, y: usize, value: T) -> (r: Option<GridError>)
        ensures
            r is None <==> Self::valid(x as int, y as int),
            r is Some ==> r->Some_0.describes(x, y) && *final(self) == *old(self),
            r is None ==> forall|i: int, j: int|
                Self::valid(i, j) ==> #[trigger] final(self).at(i, j) == if i == x && j == y {
                    Self::stored(value)
                } else {
                    old(self).at(i, j)
                },
    ;
}

/// Writing the 4-bit field at `sa` of a word changes that field to the low
/// bits of `v` and keeps every other 4-bit field of the word.
proof fn lemma_write_field(w: u64, v: u64, sa: u64, sb: u64)
    requires
        sa < 64 && sa % 4 == 0,
        sb < 64 && sb % 4 == 0,
    ensures
        field((w & !(0xfu64 << sa)) | ((v & 0xf) << sa), sb) == if sa == sb {
            v & 0xf
        } else {
            field(w, sb)
        },
{
    assert(field((w & !(0xfu64 << sa)) | ((v & 0xf) << sa), sb) == if sa == sb {
        v & 0xf
    } else {
        field(w, sb)
    }) by (bit_vector)
        requires
            sa < 64 && sa % 4 == 0,
            sb < 64 && sb % 4 == 0,
    ;
}

/// A board whose only changed word is the one holding `(x, y)`, rewritten
/// with `value` in that square's field, differs from the old board at that
/// square alone.
proof fn lemma_board_write(before: Board, after: Board, x: int, y: int, value: BoardItem)
    requires
        in_board(x, y),
        forall|k: int| 0 <= k < 4 && k != word_of(position_of(x, y)) ==> after[k] == before[k],
        after[word_of(position_of(x, y))] == (before[word_of(position_of(x, y))] & !(0xfu64 << (
        shift_of(position_of(x, y)) as u64))) | (((value as u64) & 0xf) << (shift_of(
            position_of(x, y),
        ) as u64)),
    ensures
        forall|i: int, j: int|
            in_board(i, j) ==> #[trigger] cell(after, i, j) == if i == x && j == y {
                kept(value)
            } else {
                cell(before, i, j)
            },
{
    let q = position_of(x, y);
    let v: u64 = value as u64;
    let sa: u64 = shift_of(q) as u64;
    assert(((v & 0xf) as u8) == value % 16) by (bit_vector)
        requires
            v == value as u64,
    ;
    assert forall|i: int, j: int| in_board(i, j) implies #[trigger] cell(after, i, j) == if i == x
        && j == y {
        kept(value)
    } else {
        cell(before, i, j)
    } by {
        let p = position_of(i, j);
        if word_of(p) == word_of(q) {
            let sb: u64 = shift_of(p) as u64;
            lemma_write_field(before[word_of(q)], v, sa, sb);
            assert(p == q <==> sb == sa);
        }
    }
}

impl Grid<BoardItem> for Board {
    open spec fn valid(x: int, y: int) -> bool {
        in_board(x, y)
    }

    open spec fn at(&self, x: int, y: int) -> BoardItem {
        cell(*self, x, y)
    }

    open spec fn stored(value: BoardItem) -> BoardItem {
        kept(value)
    }

    fn get_unchecked(&self, x: usize, y: usize) -> (r: BoardItem) {
        let position: usize = y * BOARD_WIDTH + x;
        let word: u64 = self[position / CELLS_PER_WORD];
        let shift: u64 = ((position % CELLS_PER_WORD) * BOARD_ITEM_BITS) as u64;
        let item: u64 = (word >> shift) & (BOARD_ITEM_MASK as u64);
        item as BoardItem
    }

    fn set_unchecked(&mut self, x: usize, y: usize, value: BoardItem) {
        let position: usize = y * BOARD_WIDTH + x;
        let index: usize = position / CELLS_PER_WORD;
        let shift: u64 = ((position % CELLS_PER_WORD) * BOARD_ITEM_BITS) as u64;
        let mask: u64 = (BOARD_ITEM_MASK as u64) << shift;
        let bits: u64 = ((value as u64) & (BOARD_ITEM_MASK as u64)) << shift;
        let ghost before: Board = *self;
        self[index] = (self[index] & !mask) | bits;
        proof {
            lemma_board_write(before, *self, x as int, y as int, value);
        }
    }

    fn get(&self, x: usize, y: usize) -> (r: Result<BoardItem, GridError>) {
        if x >= BOARD_WIDTH || y >= BOARD_WIDTH {
            return Err(GridError::out_of_bounds(x, y));
        }
        Ok(self.get_unchecked(x, y))
    }

    fn set(&mut self, x: usize, y: usize, value: BoardItem) -> (r: Option<GridError>) {
        if x >= BOARD_WIDTH || y >= BOARD_WIDTH {
            return Some(GridError::out_of_bounds(x, y));
        }
        self.set_unchecked(x, y, value);
        None
    }
}

/// Reading a square back after writing a value of at most four bits to it
/// yields that value: `after` is `before` with `v` written at `(x, y)`, as
/// `set` and `set_unchecked` leave it.
pub proof fn lemma_set_then_get(before: Board, after: Board, x: int, y: int, v: BoardItem)
    requires
        in_board(x, y),
        v <= 15,
        forall|i: int, j: int|
            in_board(i, j) ==> #[trigger] after.at(i, j) == if i == x && j == y {
                Board::stored(v)
            } else {
                before.at(i, j)
            },
    ensures
        after.at(x, y) == v,
{
    assert(after.at(x, y) == Board::stored(v));
}

/// Writing a square leaves every other square as it was read before.
pub proof fn lemma_set_keeps_others(
    before: Board,
    after: Board,
    x1: int,
    y1: int,
    v: BoardItem,
    x2: int,
    y2: int,
)
    requires
        in_board(x1, y1),
        in_board(x2, y2),
        x1 != x2 || y1 != y2,
        forall|i: int, j: int|
            in_board(i, j) ==> #[trigger] after.at(i, j) == if i == x1 && j == y1 {
                Board::stored(v)
            } else {
                before.at(i, j)
            },
    ensures
        after.at(x2, y2) == before.at(x2, y2),
{
    assert(after.at(x2, y2) == before.at(x2, y2));
}

} // verus!
