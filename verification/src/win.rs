//! Detection of four tokens in a row around the square where a token lands.
use vstd::prelude::*;
use crate::board::{Grid, holds};

verus! {

/// How many squares in a row, stepping from (`r`, `c`) by (`dr`, `dc`) and
/// not counting (`r`, `c`) itself, hold `player`'s token, looking at most
/// `n` steps far.
pub open spec fn streak(grid: Grid, player: Seq<char>, r: int, c: int, dr: int, dc: int, n: nat) -> nat
    decreases n,
{
    if n == 0 {
        0
    } else {
        let s = streak(grid, player, r, c, dr, dc, (n - 1) as nat);
        if s == n - 1 && holds(grid, player, r + n * dr, c + n * dc) {
            n
        } else {
            s
        }
    }
}

/// A token of `player` at (`r`, `c`) would complete four in a row along the
/// line through it with direction (`dr`, `dc`): three of the neighbours on
/// that line, on the two sides taken together, are the player's.
pub open spec fn completes_line(grid: Grid, player: Seq<char>, r: int, c: int, dr: int, dc: int) -> bool {
    streak(grid, player, r, c, dr, dc, 3) + streak(grid, player, r, c, -dr, -dc, 3) >= 3
}

proof fn lemma_streak_bound(grid: Grid, player: Seq<char>, r: int, c: int, dr: int, dc: int, n: nat)
    ensures
        streak(grid, player, r, c, dr, dc, n) <= n,
    decreases n,
{
    if n > 0 {
        lemma_streak_bound(grid, player, r, c, dr, dc, (n - 1) as nat);
    }
}

/// Whether `player` has three tokens next to (`row_index`, `col_index`) in
/// its row, so that a token there makes four in a row horizontally.
pub fn horizontal_win(player_id: &String, grid: &Grid, row_index: usize, col_index: usize) -> (won: bool)
    requires
        row_index < 6,
        col_index < 7,
    ensures
        won == completes_line(*grid, player_id@, row_index as int, col_index as int, 0, -1),
{
    let ghost g = *grid;
    let ghost p = player_id@;
    let ghost (r, c) = (row_index as int, col_index as int);
    let mut check_left = true;
    let mut check_right = true;
    let mut in_a_row: u32 = 1;
    for i in 1usize..4
        invariant
            row_index < 6,
            col_index < 7,
            g == *grid,
            p == player_id@,
            r == row_index,
            c == col_index,
            check_left == (streak(g, p, r, c, 0, -1, (i - 1) as nat) == i - 1),
            check_right == (streak(g, p, r, c, 0, 1, (i - 1) as nat) == i - 1),
            in_a_row == 1 + streak(g, p, r, c, 0, -1, (i - 1) as nat) + streak(g, p, r, c, 0, 1, (i - 1) as nat),
    {
        proof {
            lemma_streak_bound(g, p, r, c, 0, -1, (i - 1) as nat);
            lemma_streak_bound(g, p, r, c, 0, 1, (i - 1) as nat);
        }
        let in_bound = col_index >= i;
        if check_left && in_bound && grid[row_index][col_index - i] == *player_id {
            in_a_row += 1;
        } else {
            check_left = false;
        }
        let in_bound = col_index + i < 7;
        if check_right && in_bound && grid[row_index][col_index + i] == *player_id {
            in_a_row += 1;
        } else {
            check_right = false;
        }
    }
    in_a_row > 3
}

/// Whether `player` has three tokens right below (`row_index`, `col_index`),
/// so that a token there makes four in a row vertically.
pub fn vertical_win(player_id: &String, grid: &Grid, row_index: usize, col_index: usize) -> (won: bool)
    requires
        row_index < 6,
        col_index < 7,
    ensures
        won == (streak(*grid, player_id@, row_index as int, col_index as int, 1, 0, 3) >= 3),
{
    let ghost g = *grid;
    let ghost p = player_id@;
    let ghost (r, c) = (row_index as int, col_index as int);
    let mut check_down = true;
    let mut in_a_row: u32 = 1;
    for i in 1usize..4
        invariant
            row_index < 6,
            col_index < 7,
            g == *grid,
            p == player_id@,
            r == row_index,
            c == col_index,
            check_down == (streak(g, p, r, c, 1, 0, (i - 1) as nat) == i - 1),
            in_a_row == 1 + streak(g, p, r, c, 1, 0, (i - 1) as nat),
    {
        proof {
            lemma_streak_bound(g, p, r, c, 1, 0, (i - 1) as nat);
        }
        let in_bound = row_index + i < 6;
        if check_down && in_bound && grid[row_index + i][col_index] == *player_id {
            in_a_row += 1;
        } else {
            check_down = false;
        }
    }
    in_a_row > 3
}

/// Whether a token of `player` at (`row_index`, `col_index`) makes four in a
/// row on the diagonal that runs from the top left to the bottom right.
pub fn diagonally_win(player_id: &String, grid: &Grid, row_index: usize, col_index: usize) -> (won: bool)
    requires
        row_index < 6,
        col_index < 7,
    ensures
        won == completes_line(*grid, player_id@, row_index as int, col_index as int, 1, 1),
{
    let ghost g = *grid;
    let ghost p = player_id@;
    let ghost (r, c) = (row_index as int, col_index as int);
    let mut check_up_left = true;
    let mut check_down_right = true;
    let mut in_a_row: u32 = 1;
    for i in 1usize..4
        invariant
            row_index < 6,
            col_index < 7,
            g == *grid,
            p == player_id@,
            r == row_index,
            c == col_index,
            check_up_left == (streak(g, p, r, c, -1, -1, (i - 1) as nat) == i - 1),
            check_down_right == (streak(g, p, r, c, 1, 1, (i - 1) as nat) == i - 1),
            in_a_row == 1 + streak(g, p, r, c, -1, -1, (i - 1) as nat) + streak(g, p, r, c, 1, 1, (i - 1) as nat),
    {
        proof {
            lemma_streak_bound(g, p, r, c, -1, -1, (i - 1) as nat);
            lemma_streak_bound(g, p, r, c, 1, 1, (i - 1) as nat);
        }
        let in_bound = row_index >= i && col_index >= i;
        if check_up_left && in_bound && grid[row_index - i][col_index - i] == *player_id {
            in_a_row += 1;
        } else {
            check_up_left = false;
        }
        let in_bound = row_index + i < 6 && col_index + i < 7;
        if check_down_right && in_bound && grid[row_index + i][col_index + i] == *player_id {
            in_a_row += 1;
        } else {
            check_down_right = false;
        }
    }
    in_a_row > 3
}

/// Whether a token of `player` at (`row_index`, `col_index`) makes four in a
/// row on the diagonal that runs from the bottom left to the top right.
pub fn reverse_diagnolly_win(player_id: &String, grid: &Grid, row_index: usize, col_index: usize) -> (won: bool)
    requires
        row_index < 6,
        col_index < 7,
    ensures
        won == completes_line(*grid, player_id@, row_index as int, col_index as int, 1, -1),
{
    let ghost g = *grid;
    let ghost p = player_id@;
    let ghost (r, c) = (row_index as int, col_index as int);
    let mut check_down_left = true;
    let mut check_up_right = true;
    let mut in_a_row: u32 = 1;
    for i in 1usize..4
        invariant
            row_index < 6,
            col_index < 7,
            g == *grid,
            p == player_id@,
            r == row_index,
            c == col_index,
            check_down_left == (streak(g, p, r, c, 1, -1, (i - 1) as nat) == i - 1),
            check_up_right == (streak(g, p, r, c, -1, 1, (i - 1) as nat) == i - 1),
            in_a_row == 1 + streak(g, p, r, c, 1, -1, (i - 1) as nat) + streak(g, p, r, c, -1, 1, (i - 1) as nat),
    {
        proof {
            lemma_streak_bound(g, p, r, c, 1, -1, (i - 1) as nat);
            lemma_streak_bound(g, p, r, c, -1, 1, (i - 1) as nat);
        }
        let in_bound = row_index + i < 6 && col_index >= i;
        if check_down_left && in_bound && grid[row_index + i][col_index - i] == *player_id {
            in_a_row += 1;
        } else {
            check_down_left = false;
        }
        let in_bound = row_index >= i && col_index + i < 7;
        if check_up_right && in_bound && grid[row_index - i][col_index + i] == *player_id {
            in_a_row += 1;
        } else {
            check_up_right = false;
        }
    }
    in_a_row > 3
}

/// A token of `player` at (`r`, `c`) completes four in a row horizontally,
/// vertically downwards, or along one of the two diagonals.
pub open spec fn wins_at(grid: Grid, player: Seq<char>, r: int, c: int) -> bool {
    ||| completes_line(grid, player, r, c, 0, -1)
    ||| streak(grid, player, r, c, 1, 0, 3) >= 3
    ||| completes_line(grid, player, r, c, 1, 1)
    ||| completes_line(grid, player, r, c, 1, -1)
}

/// Whether a token of `player` at (`row_index`, `col_index`) wins the game:
/// any one of the four line checks succeeds.
pub fn player_won(player_id: &String, grid: &Grid, row_index: usize, col_index: usize) -> (won: bool)
    requires
        row_index < 6,
        col_index < 7,
    ensures
        won == wins_at(*grid, player_id@, row_index as int, col_index as int),
{
    horizontal_win(player_id, grid, row_index, col_index)
        || vertical_win(player_id, grid, row_index, col_index)
        || diagonally_win(player_id, grid, row_index, col_index)
        || reverse_diagnolly_win(player_id, grid, row_index, col_index)
}

} // verus!
