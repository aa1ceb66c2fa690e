use vstd::prelude::*;

verus! {

/// The mark a player leaves in a cell. `X` belongs to the first player,
/// `O` to the second; marks are never constructed directly by callers,
/// only derived from whose turn it is.
#[derive(Clone, Copy, PartialEq, Eq, Structural, Debug)]
pub enum Sign {
    X,
    O,
}

impl Sign {
    /// The mark that a player index decodes to: 0 is `X`, 1 is `O`,
    /// anything else decodes to nothing.
    pub open spec fn spec_from_usize(n: usize) -> Option<Sign> {
        if n == 0 {
            Some(Sign::X)
        } else if n == 1 {
            Some(Sign::O)
        } else {
            None
        }
    }

    /// Decodes a player index into its mark.
    pub fn from_usize(n: usize) -> (r: Option<Sign>)
        ensures
            r == Sign::spec_from_usize(n),
    {
        if n == 0 {
            Some(Sign::X)
        } else if n == 1 {
            Some(Sign::O)
        } else {
            None
        }
    }
}

/// A target cell, addressed by column `x` and row `y`; both coordinates
/// are valid only below 3.
#[derive(Clone, Copy, PartialEq, Eq, Structural, Debug)]
pub struct Tile {
    pub x: u8,
    pub y: u8,
}

impl Tile {
    /// Builds a tile coordinate from a column and a row.
    pub fn new(x: u8, y: u8) -> (t: Tile)
        ensures
            t.x == x,
            t.y == y,
    {
        Tile { x, y }
    }
}

/// A 3-by-3 grid of optional marks, indexed row first: `board[y][x]`.
pub type Board = [[Option<Sign>; 3]; 3];

/// Whether a tile lies on the board.
pub open spec fn tile_in_bounds(tile: Tile) -> bool {
    tile.x < 3 && tile.y < 3
}

/// The mark, if any, in row `y`, column `x`.
pub open spec fn cell(b: Board, y: int, x: int) -> Option<Sign>
    recommends
        0 <= y < 3,
        0 <= x < 3,
{
    b[y][x]
}

/// Whether the three cells at the given `(row, column)` coordinates hold
/// one identical mark.
pub open spec fn trio_filled_same(b: Board, c0: (int, int), c1: (int, int), c2: (int, int)) -> bool {
    &&& cell(b, c0.0, c0.1) is Some
    &&& cell(b, c0.0, c0.1) == cell(b, c1.0, c1.1)
    &&& cell(b, c0.0, c0.1) == cell(b, c2.0, c2.1)
}

/// Whether row `r` is fully occupied by one mark.
pub open spec fn row_won(b: Board, r: int) -> bool {
    trio_filled_same(b, (r, 0), (r, 1), (r, 2))
}

/// Whether column `c` is fully occupied by one mark.
pub open spec fn column_won(b: Board, c: int) -> bool {
    trio_filled_same(b, (0, c), (1, c), (2, c))
}

/// Whether either diagonal is fully occupied by one mark.
pub open spec fn diagonal_won(b: Board) -> bool {
    trio_filled_same(b, (0, 0), (1, 1), (2, 2)) || trio_filled_same(b, (0, 2), (1, 1), (2, 0))
}

/// Whether any of the 3 rows, 3 columns, or 2 diagonals is fully occupied
/// by one identical mark.
pub open spec fn board_won(b: Board) -> bool {
    ||| row_won(b, 0)
    ||| row_won(b, 1)
    ||| row_won(b, 2)
    ||| column_won(b, 0)
    ||| column_won(b, 1)
    ||| column_won(b, 2)
    ||| diagonal_won(b)
}

/// Whether every cell is occupied.
pub open spec fn board_full(b: Board) -> bool {
    forall|y: int, x: int| 0 <= y < 3 && 0 <= x < 3 ==> #[trigger] cell(b, y, x) is Some
}

/// 1 for an occupied cell, 0 for an empty one.
pub open spec fn occupancy(c: Option<Sign>) -> int {
    if c is Some {
        1
    } else {
        0
    }
}

/// How many of the nine cells are occupied.
pub open spec fn occupied_count(b: Board) -> int {
    occupancy(cell(b, 0, 0)) + occupancy(cell(b, 0, 1)) + occupancy(cell(b, 0, 2))
        + occupancy(cell(b, 1, 0)) + occupancy(cell(b, 1, 1)) + occupancy(cell(b, 1, 2))
        + occupancy(cell(b, 2, 0)) + occupancy(cell(b, 2, 1)) + occupancy(cell(b, 2, 2))
}

/// The board with the single cell in row `y`, column `x` set to mark `s`;
/// every other cell is untouched.
pub open spec fn placed(b: Board, y: int, x: int, s: Sign) -> Board {
    vstd::array::spec_array_update(b, y, vstd::array::spec_array_update(b[y], x, Some(s)))
}

/// Placing a mark writes exactly one cell: the target holds the new mark
/// and every other cell keeps its old content.
pub proof fn lemma_placed_cells(b: Board, y: int, x: int, s: Sign)
    requires
        0 <= y < 3,
        0 <= x < 3,
    ensures
        forall|i: int, j: int|
            0 <= i < 3 && 0 <= j < 3 ==> #[trigger] cell(placed(b, y, x, s), i, j) == (
            if i == y && j == x {
                Some(s)
            } else {
                cell(b, i, j)
            }),
{
}

/// Placing a mark on an empty cell raises the occupied-cell count by
/// exactly one.
pub proof fn lemma_placed_count(b: Board, y: int, x: int, s: Sign)
    requires
        0 <= y < 3,
        0 <= x < 3,
        cell(b, y, x) is None,
    ensures
        occupied_count(placed(b, y, x, s)) == occupied_count(b) + 1,
{
    lemma_placed_cells(b, y, x, s);
}

/// A board whose cells agree with `placed(b, y, x, s)` pointwise is that
/// board.
pub proof fn lemma_board_is_placed(b2: Board, b: Board, y: int, x: int, s: Sign)
    requires
        0 <= y < 3,
        0 <= x < 3,
        forall|i: int, j: int|
            0 <= i < 3 && 0 <= j < 3 ==> #[trigger] cell(b2, i, j) == (
            if i == y && j == x {
                Some(s)
            } else {
                cell(b, i, j)
            }),
    ensures
        b2 == placed(b, y, x, s),
{
    lemma_placed_cells(b, y, x, s);
    let p = placed(b, y, x, s);
    assert forall|i: int| 0 <= i < 3 implies #[trigger] b2[i] == p[i] by {
        assert forall|j: int| 0 <= j < 3 implies #[trigger] b2[i][j] == p[i][j] by {
            assert(cell(b2, i, j) == cell(p, i, j));
        }
        assert(b2[i] =~= p[i]);
    }
    assert(b2 =~= p);
}

} // verus!
