use vstd::prelude::*;

verus! {

/// Number of rows and of columns of a board.
pub const BOARD_SIZE: usize = 10;

/// Side of one board cell, in pixels, in the tile maps that draw the boards.
pub const TAMANHO_TILE: i32 = 16;

/// A cell coordinate lies on the board when both components are in `0..BOARD_SIZE`.
pub open spec fn spec_dentro_do_tabuleiro(x: int, y: int) -> bool {
    0 <= x < BOARD_SIZE as int && 0 <= y < BOARD_SIZE as int
}

/// The board is the square of cells whose two coordinates each run from 0
/// to `BOARD_SIZE - 1`: every such cell is on it, and no other.
pub proof fn lei_celulas_do_tabuleiro(x: int, y: int)
    ensures
        (0 <= x && x <= BOARD_SIZE - 1 && 0 <= y && y <= BOARD_SIZE - 1) ==> spec_dentro_do_tabuleiro(x, y),
        (x < 0 || y < 0 || x >= BOARD_SIZE || y >= BOARD_SIZE) ==> !spec_dentro_do_tabuleiro(x, y),
{
}

/// Tells whether the cell `(x, y)` of a tile map is a cell of the board.
pub fn dentro_do_tabuleiro(x: i32, y: i32) -> (r: bool)
    ensures
        r == spec_dentro_do_tabuleiro(x as int, y as int),
{
    let n: i32 = BOARD_SIZE as i32;
    0 <= x && x < n && 0 <= y && y < n
}

} // verus!
