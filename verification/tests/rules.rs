use connect4::board::Grid;
use connect4::game::{
    can_join, empty_grid, join, new_game, play_move, Game, Move, MoveOutcome, MAX_NUMBER_OF_GAMES,
};
use connect4::win::{diagonally_win, horizontal_win, player_won, reverse_diagnolly_win, vertical_win};

fn grid_with(tokens: &[(usize, usize, &str)]) -> Grid {
    let mut grid = empty_grid();
    for (r, c, p) in tokens {
        grid[*r][*c] = p.to_string();
    }
    grid
}

fn active_game(grid: Grid, turn: &str) -> Game {
    Game {
        id: "g1".to_string(),
        player_1: "alice".to_string(),
        player_2: "bob".to_string(),
        grid,
        turn: turn.to_string(),
        channel: "c1".to_string(),
        status: "active".to_string(),
    }
}

fn mv(player: &str, column: usize) -> Move {
    Move { game_id: "g1".to_string(), column, player_id: player.to_string() }
}

fn a() -> String {
    "alice".to_string()
}

#[test]
fn horizontal_three_on_the_left_wins() {
    let grid = grid_with(&[(5, 0, "alice"), (5, 1, "alice"), (5, 2, "alice")]);
    assert!(horizontal_win(&a(), &grid, 5, 3));
    assert!(!horizontal_win(&a(), &grid, 5, 4));
}

#[test]
fn horizontal_split_on_both_sides_wins() {
    let grid = grid_with(&[(5, 2, "alice"), (5, 4, "alice"), (5, 5, "alice")]);
    assert!(horizontal_win(&a(), &grid, 5, 3));
}

#[test]
fn horizontal_gap_or_opponent_breaks_the_line() {
    let grid = grid_with(&[(5, 0, "alice"), (5, 1, "bob"), (5, 2, "alice"), (5, 4, "alice")]);
    assert!(!horizontal_win(&a(), &grid, 5, 3));
    let grid = grid_with(&[(5, 0, "alice"), (5, 1, "alice"), (5, 5, "alice")]);
    assert!(!horizontal_win(&a(), &grid, 5, 3));
}

#[test]
fn horizontal_at_the_edges() {
    let grid = grid_with(&[(0, 4, "alice"), (0, 5, "alice"), (0, 6, "alice")]);
    assert!(horizontal_win(&a(), &grid, 0, 3));
    let grid = grid_with(&[(0, 1, "alice"), (0, 2, "alice"), (0, 3, "alice")]);
    assert!(horizontal_win(&a(), &grid, 0, 0));
    assert!(!horizontal_win(&a(), &grid, 0, 6));
}

#[test]
fn vertical_needs_three_right_below() {
    let grid = grid_with(&[(3, 2, "alice"), (4, 2, "alice"), (5, 2, "alice")]);
    assert!(vertical_win(&a(), &grid, 2, 2));
    let grid = grid_with(&[(3, 2, "alice"), (4, 2, "bob"), (5, 2, "alice")]);
    assert!(!vertical_win(&a(), &grid, 2, 2));
    let grid = grid_with(&[(4, 2, "alice"), (5, 2, "alice")]);
    assert!(!vertical_win(&a(), &grid, 3, 2));
    // Tokens above the square do not count.
    let grid = grid_with(&[(0, 2, "alice"), (1, 2, "alice"), (2, 2, "alice")]);
    assert!(!vertical_win(&a(), &grid, 3, 2));
}

#[test]
fn diagonal_top_left_to_bottom_right() {
    let grid = grid_with(&[(0, 0, "alice"), (1, 1, "alice"), (3, 3, "alice")]);
    assert!(diagonally_win(&a(), &grid, 2, 2));
    let grid = grid_with(&[(3, 3, "alice"), (4, 4, "alice"), (5, 5, "alice")]);
    assert!(diagonally_win(&a(), &grid, 2, 2));
    let grid = grid_with(&[(1, 1, "alice"), (3, 3, "alice")]);
    assert!(!diagonally_win(&a(), &grid, 2, 2));
}

#[test]
fn diagonal_bottom_left_to_top_right() {
    let grid = grid_with(&[(5, 0, "alice"), (4, 1, "alice"), (2, 3, "alice")]);
    assert!(reverse_diagnolly_win(&a(), &grid, 3, 2));
    let grid = grid_with(&[(2, 3, "alice"), (1, 4, "alice"), (0, 5, "alice")]);
    assert!(reverse_diagnolly_win(&a(), &grid, 3, 2));
    assert!(!diagonally_win(&a(), &grid, 3, 2));
    let grid = grid_with(&[(5, 0, "alice"), (4, 1, "bob"), (2, 3, "alice"), (1, 4, "alice")]);
    assert!(!reverse_diagnolly_win(&a(), &grid, 3, 2));
}

#[test]
fn player_won_combines_the_four_lines() {
    let grid = grid_with(&[(3, 6, "alice"), (4, 6, "alice"), (5, 6, "alice")]);
    assert!(player_won(&a(), &grid, 2, 6));
    assert!(!player_won(&"bob".to_string(), &grid, 2, 6));
    let grid = grid_with(&[(5, 0, "alice"), (4, 1, "alice"), (3, 2, "alice")]);
    assert!(player_won(&a(), &grid, 2, 3));
    assert!(!player_won(&a(), &empty_grid(), 5, 3));
}

#[test]
fn a_move_lands_on_the_lowest_empty_square() {
    let mut game = active_game(grid_with(&[(5, 3, "bob"), (4, 3, "alice")]), "alice");
    let outcome = play_move(&mut game, mv("alice", 3));
    assert_eq!(outcome, MoveOutcome::Placed);
    assert_eq!(game.grid[3][3], "alice");
    assert_eq!(game.grid[4][3], "alice");
    assert_eq!(game.grid[5][3], "bob");
    assert_eq!(game.grid[2][3], "");
    assert_eq!(game.turn, "bob");
    assert_eq!(game.status, "active");
}

#[test]
fn a_move_into_an_empty_column_lands_at_the_bottom() {
    let mut game = active_game(empty_grid(), "bob");
    assert_eq!(play_move(&mut game, mv("bob", 0)), MoveOutcome::Placed);
    assert_eq!(game.grid[5][0], "bob");
    assert_eq!(game.turn, "alice");
}

#[test]
fn out_of_turn_moves_are_rejected() {
    let mut game = active_game(empty_grid(), "alice");
    let before = game.clone();
    assert_eq!(play_move(&mut game, mv("bob", 2)), MoveOutcome::Rejected);
    assert_eq!(game.grid, before.grid);
    assert_eq!(game.turn, "alice");
}

#[test]
fn moves_on_games_not_in_play_are_rejected() {
    let mut game = active_game(empty_grid(), "alice");
    game.status = "not_started".to_string();
    assert_eq!(play_move(&mut game, mv("alice", 2)), MoveOutcome::Rejected);
    assert_eq!(game.grid, empty_grid());
    game.status = "player_2_won".to_string();
    assert_eq!(play_move(&mut game, mv("alice", 2)), MoveOutcome::Rejected);
    assert_eq!(game.turn, "alice");
}

#[test]
fn moves_into_a_full_column_are_rejected() {
    let column: Vec<(usize, usize, &str)> =
        (0..6).map(|r| (r, 1, if r % 2 == 0 { "alice" } else { "bob" })).collect();
    let mut game = active_game(grid_with(&column), "alice");
    let before = game.clone();
    assert_eq!(play_move(&mut game, mv("alice", 1)), MoveOutcome::Rejected);
    assert_eq!(game.grid, before.grid);
    assert_eq!(game.turn, "alice");
}

#[test]
fn completing_four_wins_for_the_first_player() {
    let mut game = active_game(
        grid_with(&[(5, 0, "alice"), (5, 1, "alice"), (5, 2, "alice"), (4, 0, "bob"), (4, 1, "bob")]),
        "alice",
    );
    assert_eq!(play_move(&mut game, mv("alice", 3)), MoveOutcome::Won);
    assert_eq!(game.status, "player_1_won");
    assert_eq!(game.grid[5][3], "alice");
    assert_eq!(game.turn, "bob");
}

#[test]
fn completing_four_wins_for_the_second_player() {
    let mut game = active_game(grid_with(&[(3, 6, "bob"), (4, 6, "bob"), (5, 6, "bob")]), "bob");
    assert_eq!(play_move(&mut game, mv("bob", 6)), MoveOutcome::Won);
    assert_eq!(game.status, "player_2_won");
    assert_eq!(game.grid[2][6], "bob");
    assert_eq!(game.turn, "alice");
}

#[test]
fn no_move_after_a_win() {
    let mut game = active_game(grid_with(&[(3, 6, "bob"), (4, 6, "bob"), (5, 6, "bob")]), "bob");
    assert_eq!(play_move(&mut game, mv("bob", 6)), MoveOutcome::Won);
    let after_win = game.clone();
    assert_eq!(play_move(&mut game, mv("alice", 0)), MoveOutcome::Rejected);
    assert_eq!(game.grid, after_win.grid);
}

#[test]
fn a_whole_game_keeps_tokens_settled_and_alternates_turns() {
    let mut game = active_game(empty_grid(), "alice");
    let columns = [3, 3, 2, 4, 1, 1, 0];
    let mut mover = "alice";
    for (i, c) in columns.iter().enumerate() {
        let outcome = play_move(&mut game, mv(mover, *c));
        if i + 1 < columns.len() {
            assert_eq!(outcome, MoveOutcome::Placed);
        } else {
            assert_eq!(outcome, MoveOutcome::Won);
        }
        mover = if mover == "alice" { "bob" } else { "alice" };
        assert_eq!(game.turn, mover);
        for c in 0..7 {
            for r in 0..5 {
                if !game.grid[r][c].is_empty() {
                    assert!(!game.grid[r + 1][c].is_empty());
                }
            }
        }
    }
    assert_eq!(game.status, "player_1_won");
    assert_eq!(game.grid[5][0], "alice");
    assert_eq!(game.grid[5][1], "alice");
    assert_eq!(game.grid[5][2], "alice");
    assert_eq!(game.grid[5][3], "alice");
}

#[test]
fn a_new_game_waits_for_its_second_player() {
    let mut game = new_game("alice".to_string(), "chan".to_string());
    assert_eq!(game.player_1, "alice");
    assert_eq!(game.player_2, "");
    assert_eq!(game.turn, "alice");
    assert_eq!(game.channel, "chan");
    assert_eq!(game.status, "not_started");
    assert_eq!(game.grid, empty_grid());
    assert_eq!(game.id.len(), 36);
    assert_ne!(game.id, "");
    assert_eq!(play_move(&mut game, mv("alice", 0)), MoveOutcome::Rejected);
    assert!(can_join(&game));
}

#[test]
fn joining_starts_the_game_and_closes_it() {
    let mut game = new_game("alice".to_string(), "chan".to_string());
    join(&mut game, "bob".to_string());
    assert_eq!(game.player_2, "bob");
    assert_eq!(game.status, "active");
    assert!(!can_join(&game));
    assert_eq!(play_move(&mut game, mv("alice", 0)), MoveOutcome::Placed);
    assert_eq!(game.turn, "bob");
}

#[test]
fn games_are_equal_by_id_and_turn() {
    let g1 = active_game(empty_grid(), "alice");
    let mut g2 = active_game(grid_with(&[(5, 0, "bob")]), "alice");
    g2.status = "player_2_won".to_string();
    assert!(g1 == g2);
    let g3 = active_game(empty_grid(), "bob");
    assert!(g1 != g3);
    let mut g4 = active_game(empty_grid(), "alice");
    g4.id = "g2".to_string();
    assert!(g1 != g4);
}

#[test]
fn at_most_three_games() {
    assert_eq!(MAX_NUMBER_OF_GAMES, 3);
}

#[test]
fn a_token_in_the_middle_of_a_diagonal_wins() {
    let grid = grid_with(&[
        (5, 0, "alice"),
        (5, 1, "bob"),
        (4, 1, "alice"),
        (5, 2, "bob"),
        (4, 2, "bob"),
        (5, 3, "bob"),
        (4, 3, "alice"),
        (3, 3, "bob"),
        (2, 3, "alice"),
    ]);
    let mut game = active_game(grid, "alice");
    assert_eq!(play_move(&mut game, mv("alice", 2)), MoveOutcome::Won);
    assert_eq!(game.grid[3][2], "alice");
    assert_eq!(game.status, "player_1_won");
}

#[test]
fn three_in_a_row_does_not_win() {
    let mut game = active_game(grid_with(&[(5, 0, "alice"), (5, 1, "alice")]), "alice");
    assert_eq!(play_move(&mut game, mv("alice", 2)), MoveOutcome::Placed);
    assert_eq!(game.status, "active");
}
