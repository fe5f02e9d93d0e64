//! The six-by-seven grid of a Connect Four game and its mathematical model.
use vstd::prelude::*;

verus! {

/// Number of rows of the grid; row 0 is the top row.
pub const ROWS: usize = 6;

/// Number of columns of the grid.
pub const COLS: usize = 7;

/// A grid of squares; an empty square holds the empty string, a taken one
/// holds the name of the player whose token lies there.
pub type Grid = [[String; 7]; 6];

/// The text held by the square at row `r` and column `c`.
pub open spec fn cell(grid: Grid, r: int, c: int) -> Seq<char> {
    grid@[r]@[c]@
}

/// The square at (`r`, `c`) lies on the grid.
pub open spec fn on_grid(r: int, c: int) -> bool {
    0 <= r < 6 && 0 <= c < 7
}

/// The square at (`r`, `c`) lies on the grid and holds `player`'s token.
pub open spec fn holds(grid: Grid, player: Seq<char>, r: int, c: int) -> bool {
    on_grid(r, c) && cell(grid, r, c) == player
}

/// The square at (`r`, `c`) is empty.
pub open spec fn is_empty_cell(grid: Grid, r: int, c: int) -> bool {
    cell(grid, r, c).len() == 0
}

} // verus!
