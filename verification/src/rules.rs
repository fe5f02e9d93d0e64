//! Laws of the game that span its operations: what a move keeps, and when
//! a move wins.
use vstd::prelude::*;
use crate::board::{Grid, cell, holds, is_empty_cell, on_grid};
use crate::game::{
    Game, Move, MoveOutcome, active, drops_token, grid_is_empty, landing_row, lemma_landing_row, move_allowed,
    move_result, not_started, player_1_won, player_2_won,
};
use crate::win::{streak, completes_line};
use crate::server::is_open_game;
use crate::client::names_someone;

verus! {

/// No token floats: in every column, every square below a taken square is
/// taken too.
pub open spec fn settled(grid: Grid) -> bool {
    forall|r1: int, r2: int, c: int|
        #![trigger cell(grid, r1, c), cell(grid, r2, c)]
        0 <= r1 < r2 < 6 && 0 <= c < 7 && !is_empty_cell(grid, r1, c) ==> !is_empty_cell(grid, r2, c)
}

/// A move keeps the grid settled: tokens only ever land on the bottom of
/// the grid or on top of other tokens.
pub proof fn lemma_move_keeps_settled(before: Game, mv: Move, after: Game, outcome: MoveOutcome)
    requires
        settled(before.grid),
        move_result(before, mv, after, outcome),
    ensures
        settled(after.grid),
{
    if outcome != MoveOutcome::Rejected {
        let col = mv.column as int;
        let r = landing_row(before.grid, col);
        lemma_landing_row(before.grid, col);
        assert forall|r1: int, r2: int, c: int|
            #![trigger cell(after.grid, r1, c), cell(after.grid, r2, c)]
            0 <= r1 < r2 < 6 && 0 <= c < 7 && !is_empty_cell(after.grid, r1, c) implies !is_empty_cell(after.grid, r2, c) by {
            assert(cell(after.grid, r1, c) == if r1 == r && c == col { mv.player_id@ } else { cell(before.grid, r1, c) });
            assert(cell(after.grid, r2, c) == if r2 == r && c == col { mv.player_id@ } else { cell(before.grid, r2, c) });
            if c == col && r1 == r {
                assert(!is_empty_cell(before.grid, r2, c));
            } else if c == col && r2 == r {
                assert(!is_empty_cell(before.grid, r1, c));
                assert(!is_empty_cell(before.grid, r, c));
            } else {
                assert(!is_empty_cell(before.grid, r1, c));
            }
        }
    }
}

/// Four squares in a line, from (`r`, `c`) in steps of (`dr`, `dc`), all
/// hold `player`'s tokens.
pub open spec fn four_from(grid: Grid, player: Seq<char>, r: int, c: int, dr: int, dc: int) -> bool {
    &&& holds(grid, player, r, c)
    &&& holds(grid, player, r + dr, c + dc)
    &&& holds(grid, player, r + 2 * dr, c + 2 * dc)
    &&& holds(grid, player, r + 3 * dr, c + 3 * dc)
}

/// Some four squares in a line with direction (`dr`, `dc`) that pass through
/// (`r`, `c`) all hold `player`'s tokens.
pub open spec fn four_along(grid: Grid, player: Seq<char>, r: int, c: int, dr: int, dc: int) -> bool {
    ||| four_from(grid, player, r, c, dr, dc)
    ||| four_from(grid, player, r - dr, c - dc, dr, dc)
    ||| four_from(grid, player, r - 2 * dr, c - 2 * dc, dr, dc)
    ||| four_from(grid, player, r - 3 * dr, c - 3 * dc, dr, dc)
}

/// Four of `player`'s tokens lie in a row, a column or a diagonal through
/// the square (`r`, `c`).
pub open spec fn four_in_a_row_through(grid: Grid, player: Seq<char>, r: int, c: int) -> bool {
    ||| four_along(grid, player, r, c, 0, 1)
    ||| four_along(grid, player, r, c, 1, 0)
    ||| four_along(grid, player, r, c, 1, 1)
    ||| four_along(grid, player, r, c, 1, -1)
}

/// Along a line through the square where `player`'s token is dropped, the
/// neighbours on both sides complete four in a row exactly when the grid
/// after the drop holds four of the player's tokens on that line through the
/// square; and three of them right after it in the line's direction make
/// four starting at the square.
#[verifier::spinoff_prover]
#[verifier::rlimit(40)]
proof fn lemma_line_after_drop(before: Grid, after: Grid, player: Seq<char>, r: int, c: int, dr: int, dc: int)
    requires
        on_grid(r, c),
        drops_token(before, after, r, c, player),
        dr != 0 || dc != 0,
        -1 <= dr <= 1,
        -1 <= dc <= 1,
    ensures
        completes_line(before, player, r, c, dr, dc) <==> four_along(after, player, r, c, dr, dc),
        streak(before, player, r, c, dr, dc, 3) >= 3 <==> four_from(after, player, r, c, dr, dc),
{
    reveal_with_fuel(streak, 4);
    assert(holds(after, player, r, c));
    assert(holds(after, player, r + dr, c + dc) == holds(before, player, r + dr, c + dc));
    assert(holds(after, player, r + 2 * dr, c + 2 * dc) == holds(before, player, r + 2 * dr, c + 2 * dc));
    assert(holds(after, player, r + 3 * dr, c + 3 * dc) == holds(before, player, r + 3 * dr, c + 3 * dc));
    assert(holds(after, player, r - dr, c - dc) == holds(before, player, r - dr, c - dc));
    assert(holds(after, player, r - 2 * dr, c - 2 * dc) == holds(before, player, r - 2 * dr, c - 2 * dc));
    assert(holds(after, player, r - 3 * dr, c - 3 * dc) == holds(before, player, r - 3 * dr, c - 3 * dc));
    assert(streak(before, player, r, c, dr, dc, 1) == (if holds(before, player, r + dr, c + dc) { 1nat } else { 0nat }));
    assert(streak(before, player, r, c, -dr, -dc, 1) == (if holds(before, player, r - dr, c - dc) { 1nat } else { 0nat }));
}

/// A move is reported won only if, after it, the mover has four tokens in a
/// row, a column or a diagonal through the square where its token landed.
pub proof fn lemma_win_means_four_in_a_row(before: Game, mv: Move, after: Game, outcome: MoveOutcome)
    requires
        move_result(before, mv, after, outcome),
        outcome == MoveOutcome::Won,
    ensures
        four_in_a_row_through(after.grid, mv.player_id@, landing_row(before.grid, mv.column as int), mv.column as int),
{
    let (p, r, c) = (mv.player_id@, landing_row(before.grid, mv.column as int), mv.column as int);
    lemma_line_after_drop(before.grid, after.grid, p, r, c, 0, 1);
    lemma_line_after_drop(before.grid, after.grid, p, r, c, 1, 0);
    lemma_line_after_drop(before.grid, after.grid, p, r, c, 1, 1);
    lemma_line_after_drop(before.grid, after.grid, p, r, c, 1, -1);
}

/// On a settled grid, and for a mover whose name is not empty, an allowed
/// move is reported won exactly when it leaves four of the mover's tokens in
/// a row, a column or a diagonal through the square where its token landed.
pub proof fn lemma_win_iff_four_in_a_row(before: Game, mv: Move, after: Game, outcome: MoveOutcome)
    requires
        settled(before.grid),
        mv.player_id@.len() > 0,
        move_allowed(before, mv),
        move_result(before, mv, after, outcome),
    ensures
        outcome == MoveOutcome::Won <==> four_in_a_row_through(
            after.grid,
            mv.player_id@,
            landing_row(before.grid, mv.column as int),
            mv.column as int,
        ),
{
    let (p, r, c) = (mv.player_id@, landing_row(before.grid, mv.column as int), mv.column as int);
    lemma_landing_row(before.grid, c);
    lemma_line_after_drop(before.grid, after.grid, p, r, c, 0, 1);
    lemma_line_after_drop(before.grid, after.grid, p, r, c, 1, 0);
    lemma_line_after_drop(before.grid, after.grid, p, r, c, 1, 1);
    lemma_line_after_drop(before.grid, after.grid, p, r, c, 1, -1);
    // The square above the landing square is empty, so no vertical four
    // reaches above the token that was just dropped.
    if r > 0 {
        assert(cell(after.grid, r - 1, c) == cell(before.grid, r - 1, c));
        assert(cell(before.grid, r, c).len() == 0);
        assert(is_empty_cell(before.grid, r - 1, c));
    }
    assert(!holds(after.grid, p, r - 1, c));
}

/// A game with an empty grid that has not started is settled, and no move
/// can be played on it until a second player joins.
pub proof fn lemma_new_game_waits_for_second_player(game: Game, mv: Move)
    requires
        grid_is_empty(game.grid),
        game.status@ == not_started(),
    ensures
        settled(game.grid),
        !move_allowed(game, mv),
{
    reveal_strlit("not_started");
    reveal_strlit("active");
    assert(not_started()[0] != active()[0]);
}

/// A game that a second player joined is in play: moves may be played on
/// it, and nobody else can join it.
pub proof fn lemma_joined_game_is_closed(game: Game)
    requires
        game.status@ == active(),
    ensures
        game.status@ != not_started(),
{
    reveal_strlit("not_started");
    reveal_strlit("active");
    assert(not_started()[0] != active()[0]);
}

/// Once a move wins, the game takes no further move.
pub proof fn lemma_no_move_after_win(before: Game, mv: Move, after: Game, outcome: MoveOutcome, next: Move)
    requires
        move_result(before, mv, after, outcome),
        outcome == MoveOutcome::Won,
    ensures
        !move_allowed(after, next),
{
    reveal_strlit("active");
    reveal_strlit("player_1_won");
    reveal_strlit("player_2_won");
    assert(player_1_won()[0] != active()[0]);
    assert(player_2_won()[0] != active()[0]);
}

/// Players alternate: after two allowed moves in a row on a game between two
/// different players, the second move was the other player's, and the turn
/// is back with the first mover.
pub proof fn lemma_turns_alternate(
    g0: Game,
    m1: Move,
    g1: Game,
    o1: MoveOutcome,
    m2: Move,
    g2: Game,
    o2: MoveOutcome,
)
    requires
        g0.player_1@ != g0.player_2@,
        g0.turn@ == g0.player_1@ || g0.turn@ == g0.player_2@,
        move_allowed(g0, m1),
        move_result(g0, m1, g1, o1),
        move_allowed(g1, m2),
        move_result(g1, m2, g2, o2),
    ensures
        m2.player_id@ != m1.player_id@,
        g2.turn@ == g0.turn@,
{
}

/// A move by the player whose turn it is, on a game in play, into a column
/// of the grid whose top square is empty, is never rejected: its token fills
/// the lowest empty square of that column, every other square keeps what it
/// held, and the turn passes to the other player.
pub proof fn lemma_open_column_takes_the_move(before: Game, mv: Move, after: Game, outcome: MoveOutcome)
    requires
        move_result(before, mv, after, outcome),
        mv.column < 7,
        mv.player_id@ == before.turn@,
        before.status@ == "active"@,
        cell(before.grid, 0, mv.column as int).len() == 0,
    ensures
        outcome == MoveOutcome::Placed || outcome == MoveOutcome::Won,
        exists|r: int|
            {
                &&& 0 <= r < 6
                &&& cell(before.grid, r, mv.column as int).len() == 0
                &&& cell(after.grid, r, mv.column as int) == mv.player_id@
                &&& forall|k: int| r < k < 6 ==> cell(before.grid, k, mv.column as int).len() > 0
                &&& forall|r2: int, c2: int|
                    0 <= r2 < 6 && 0 <= c2 < 7 && !(r2 == r && c2 == mv.column) ==> #[trigger] cell(after.grid, r2, c2)
                        == cell(before.grid, r2, c2)
            },
        after.turn@ == (if before.turn@ == before.player_1@ {
            before.player_2@
        } else {
            before.player_1@
        }),
{
    let c = mv.column as int;
    lemma_landing_row(before.grid, c);
    let r = landing_row(before.grid, c);
    assert(cell(after.grid, r, c) == mv.player_id@);
    assert forall|k: int| r < k < 6 implies cell(before.grid, k, c).len() > 0 by {
        assert(!is_empty_cell(before.grid, k, c));
    }
}

/// A winning move credits its mover: the status becomes `player_1_won` when
/// the first player made it and `player_2_won` otherwise, wherever the token
/// landed; a move that is played without winning leaves the status as it was.
pub proof fn lemma_win_credits_the_mover(before: Game, mv: Move, after: Game, outcome: MoveOutcome)
    requires
        move_result(before, mv, after, outcome),
    ensures
        outcome == MoveOutcome::Won && mv.player_id@ == before.player_1@ ==> after.status@ == "player_1_won"@,
        outcome == MoveOutcome::Won && mv.player_id@ != before.player_1@ ==> after.status@ == "player_2_won"@,
        outcome == MoveOutcome::Placed ==> after.status@ == before.status@,
        outcome == MoveOutcome::Won || outcome == MoveOutcome::Placed ==> after.player_1 == before.player_1
            && after.player_2 == before.player_2,
{
}

/// The lobby lists a game exactly when its status is `not_started` or
/// `active`, whatever its players, turn or grid; it lists nothing that was not
/// among the games it was given.
pub proof fn lemma_lobby_lists_open_games(games: Seq<Game>, listed: Seq<Game>)
    requires
        listed == games.filter(|g: Game| is_open_game(g)),
    ensures
        forall|i: int|
            0 <= i < games.len() ==> (listed.contains(#[trigger] games[i]) <==> (games[i].status@ == "not_started"@
                || games[i].status@ == "active"@)),
        forall|j: int|
            0 <= j < listed.len() ==> games.contains(#[trigger] listed[j]) && (listed[j].status@ == "not_started"@
                || listed[j].status@ == "active"@),
{
    let pred = |g: Game| is_open_game(g);
    games.filter_lemma(pred);
    assert forall|i: int| 0 <= i < games.len() implies (listed.contains(#[trigger] games[i]) <==> (games[i].status@
        == "not_started"@ || games[i].status@ == "active"@)) by {
        if listed.contains(games[i]) {
            let j = choose|j: int| 0 <= j < listed.len() && listed[j] == games[i];
            assert(pred(listed[j]));
        }
    }
    assert forall|j: int| 0 <= j < listed.len() implies games.contains(#[trigger] listed[j]) && (listed[j].status@
        == "not_started"@ || listed[j].status@ == "active"@) by {
        assert(listed.contains(listed[j]));
        games.lemma_filter_contains_rev(pred, listed[j]);
        assert(pred(listed[j]));
    }
}

/// A remembered name counts as naming someone exactly when it is not empty.
pub proof fn lemma_every_nonempty_name_logs_in(name: Seq<char>)
    ensures
        names_someone(name) <==> name.len() > 0,
{
}

} // verus!
