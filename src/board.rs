use vstd::prelude::*;

verus! {

/// Cells on one side of the square board.
pub const SIDE: usize = 5;

/// Cells on the whole board, stored row by row.
pub const CELLS: usize = 25;

/// The mark in row `r`, column `c` of a board stored row by row.
pub open spec fn cell(board: Seq<u8>, r: int, c: int) -> u8 {
    board[r * 5 + c]
}

/// Every cell of row `r` holds `m`.
pub open spec fn row_full(board: Seq<u8>, r: int, m: u8) -> bool {
    forall|c: int| 0 <= c < 5 ==> #[trigger] cell(board, r, c) == m
}

/// Every cell of column `c` holds `m`.
pub open spec fn col_full(board: Seq<u8>, c: int, m: u8) -> bool {
    forall|r: int| 0 <= r < 5 ==> #[trigger] cell(board, r, c) == m
}

/// Some row of the board is full of `m`.
pub open spec fn has_full_row(board: Seq<u8>, m: u8) -> bool {
    exists|r: int| 0 <= r < 5 && #[trigger] row_full(board, r, m)
}

/// Some column of the board is full of `m`.
pub open spec fn has_full_col(board: Seq<u8>, m: u8) -> bool {
    exists|c: int| 0 <= c < 5 && #[trigger] col_full(board, c, m)
}

/// `m` owns a whole row or a whole column. Diagonals do not count.
pub open spec fn has_line(board: Seq<u8>, m: u8) -> bool {
    has_full_row(board, m) || has_full_col(board, m)
}

/// Tells whether row `r` of `board` is full of `m`.
pub fn row_is_full(board: &Vec<u8>, r: usize, m: u8) -> (res: bool)
    requires
        board@.len() == CELLS,
        r < SIDE,
    ensures
        res == row_full(board@, r as int, m),
{
    let mut c: usize = 0;
    while c < SIDE
        invariant
            c <= SIDE,
            board@.len() == CELLS,
            r < SIDE,
            forall|k: int| 0 <= k < c ==> #[trigger] cell(board@, r as int, k) == m,
        decreases SIDE - c,
    {
        if board[r * SIDE + c] != m {
            assert(cell(board@, r as int, c as int) != m);
            return false;
        }
        c += 1;
    }
    true
}

/// Tells whether column `c` of `board` is full of `m`.
pub fn col_is_full(board: &Vec<u8>, c: usize, m: u8) -> (res: bool)
    requires
        board@.len() == CELLS,
        c < SIDE,
    ensures
        res == col_full(board@, c as int, m),
{
    let mut r: usize = 0;
    while r < SIDE
        invariant
            r <= SIDE,
            board@.len() == CELLS,
            c < SIDE,
            forall|k: int| 0 <= k < r ==> #[trigger] cell(board@, k, c as int) == m,
        decreases SIDE - r,
    {
        if board[r * SIDE + c] != m {
            assert(cell(board@, r as int, c as int) != m);
            return false;
        }
        r += 1;
    }
    true
}

/// Tells whether `m` owns a whole row or a whole column of `board`.
/// Rows are scanned first, top to bottom, then columns, left to right.
pub fn line_owned(board: &Vec<u8>, m: u8) -> (res: bool)
    requires
        board@.len() == CELLS,
    ensures
        res == has_line(board@, m),
{
    let mut r: usize = 0;
    while r < SIDE
        invariant
            r <= SIDE,
            board@.len() == CELLS,
            forall|k: int| 0 <= k < r ==> !#[trigger] row_full(board@, k, m),
        decreases SIDE - r,
    {
        if row_is_full(board, r, m) {
            return true;
        }
        r += 1;
    }
    let mut c: usize = 0;
    while c < SIDE
        invariant
            c <= SIDE,
            board@.len() == CELLS,
            !has_full_row(board@, m),
            forall|k: int| 0 <= k < c ==> !#[trigger] col_full(board@, k, m),
        decreases SIDE - c,
    {
        if col_is_full(board, c, m) {
            return true;
        }
        c += 1;
    }
    false
}

} // verus!
