//! The records shared by the game server and its web client, and the rules
//! that change a game: a new game, a player joining it, a move.
use vstd::prelude::*;
use crate::board::{Grid, cell, is_empty_cell};
use crate::ids::{fresh_id, is_v4_uuid_text};
use crate::win::{player_won, wins_at};

verus! {

/// The most games that can run at once; each running game holds one of the
/// server's event channels.
pub const MAX_NUMBER_OF_GAMES: usize = 3;

/// A request to join `game` as its second player.
#[derive(Debug, Clone)]
pub struct NewPlayer {
    pub game: String,
    pub player: String,
}

/// A game: its players, its grid, whose turn it is, the event channel that
/// carries its updates, and its status, one of `not_started`, `active`,
/// `player_1_won` and `player_2_won`.
#[derive(Debug, Clone)]
pub struct Game {
    pub id: String,
    pub player_1: String,
    pub player_2: String,
    pub grid: Grid,
    pub turn: String,
    pub channel: String,
    pub status: String,
}

/// A user's credentials, and the API key the server issued to it if any.
#[derive(Debug, Clone)]
pub struct UserInfo {
    pub username: String,
    pub password: String,
    pub api_key: Option<String>,
}

/// The empty reply.
#[derive(Debug, Clone, Copy, PartialEq, Eq, Structural)]
pub struct Empty {}

/// The reply to the creation of a game: the new game's id.
#[derive(Debug, Clone)]
pub struct GameId {
    pub game_id: String,
}

/// A move: `player_id` drops a token into `column` of game `game_id`.
#[derive(Debug, Clone)]
pub struct Move {
    pub game_id: String,
    pub column: usize,
    pub player_id: String,
}

/// Two games are the same when they have the same id and the same player to
/// move; the grid and the rest are not compared.
impl PartialEq for Game {
    fn eq(&self, other: &Self) -> (same: bool) {
        self.id == other.id && self.turn == other.turn
    }
}

impl vstd::std_specs::cmp::PartialEqSpecImpl for Game {
    open spec fn obeys_eq_spec() -> bool {
        true
    }

    open spec fn eq_spec(&self, other: &Game) -> bool {
        self.id@ == other.id@ && self.turn@ == other.turn@
    }
}

/// Status of a game that waits for its second player.
pub open spec fn not_started() -> Seq<char> {
    "not_started"@
}

/// Status of a game in play.
pub open spec fn active() -> Seq<char> {
    "active"@
}

/// Status of a game that the first player won.
pub open spec fn player_1_won() -> Seq<char> {
    "player_1_won"@
}

/// Status of a game that the second player won.
pub open spec fn player_2_won() -> Seq<char> {
    "player_2_won"@
}

/// Every square of the grid is empty.
pub open spec fn grid_is_empty(grid: Grid) -> bool {
    forall|r: int, c: int| 0 <= r < 6 && 0 <= c < 7 ==> #[trigger] cell(grid, r, c).len() == 0
}

/// A row of seven empty squares.
fn empty_row() -> (row: [String; 7])
    ensures
        forall|c: int| 0 <= c < 7 ==> (#[trigger] row@[c])@.len() == 0,
{
    [String::new(), String::new(), String::new(), String::new(), String::new(), String::new(), String::new()]
}

/// A grid whose squares are all empty.
pub fn empty_grid() -> (grid: Grid)
    ensures
        grid_is_empty(grid),
{
    [empty_row(), empty_row(), empty_row(), empty_row(), empty_row(), empty_row()]
}

/// Whether the text is empty, as that of a square with no token is.
pub fn is_blank(text: &String) -> (blank: bool)
    ensures
        blank == (text@.len() == 0),
{
    text.as_str().is_empty()
}

/// A new game that `player_1` opens on the event channel `channel`: a fresh
/// random id, no second player yet, an empty grid, `player_1` to move first,
/// and the status `not_started`.
pub fn new_game(player_1: String, channel: String) -> (game: Game)
    ensures
        is_v4_uuid_text(game.id@),
        game.player_1@ == player_1@,
        game.player_2@.len() == 0,
        grid_is_empty(game.grid),
        game.turn@ == player_1@,
        game.channel@ == channel@,
        game.status@ == not_started(),
{
    let id = fresh_id();
    Game {
        id,
        player_1: player_1.clone(),
        player_2: String::new(),
        grid: empty_grid(),
        turn: player_1,
        channel,
        status: "not_started".to_owned(),
    }
}

/// A second player may join the game only while it has not started.
pub fn can_join(game: &Game) -> (open: bool)
    ensures
        open == (game.status@ == not_started()),
{
    game.status == "not_started".to_owned()
}

/// `player` joins the game as its second player, which starts it.
pub fn join(game: &mut Game, player: String)
    ensures
        final(game).player_2@ == player@,
        final(game).status@ == active(),
        final(game).id == old(game).id,
        final(game).player_1 == old(game).player_1,
        final(game).grid == old(game).grid,
        final(game).turn == old(game).turn,
        final(game).channel == old(game).channel,
{
    game.player_2 = player;
    game.status = "active".to_owned();
}

/// The lowest empty square of column `c` at or above row `r`, or -1 if
/// there is none.
pub open spec fn landing_row_from(grid: Grid, c: int, r: int) -> int
    decreases r + 1,
{
    if r < 0 {
        -1
    } else if is_empty_cell(grid, r, c) {
        r
    } else {
        landing_row_from(grid, c, r - 1)
    }
}

/// The row where a token dropped into column `c` comes to rest: the lowest
/// empty square of the column, or -1 if the column is full.
pub open spec fn landing_row(grid: Grid, c: int) -> int {
    landing_row_from(grid, c, 5)
}

proof fn lemma_landing_row_from(grid: Grid, c: int, r: int)
    requires
        0 <= r,
        is_empty_cell(grid, 0, c),
    ensures
        0 <= landing_row_from(grid, c, r) <= r,
        is_empty_cell(grid, landing_row_from(grid, c, r), c),
        forall|k: int| landing_row_from(grid, c, r) < k <= r ==> !is_empty_cell(grid, k, c),
    decreases r,
{
    if r > 0 && !is_empty_cell(grid, r, c) {
        lemma_landing_row_from(grid, c, r - 1);
    }
}

/// The landing row of a column whose top square is empty lies on the grid,
/// is empty, and every square below it is taken.
pub proof fn lemma_landing_row(grid: Grid, c: int)
    requires
        is_empty_cell(grid, 0, c),
    ensures
        0 <= landing_row(grid, c) < 6,
        is_empty_cell(grid, landing_row(grid, c), c),
        forall|k: int| landing_row(grid, c) < k < 6 ==> !is_empty_cell(grid, k, c),
{
    lemma_landing_row_from(grid, c, 5);
}

/// The row where a token dropped into `col` comes to rest.
fn find_landing_row(grid: &Grid, col: usize) -> (row: usize)
    requires
        col < 7,
        is_empty_cell(*grid, 0, col as int),
    ensures
        row < 6,
        row == landing_row(*grid, col as int),
{
    let mut row: usize = 5;
    while !is_blank(&grid[row][col])
        invariant
            col < 7,
            row <= 5,
            is_empty_cell(*grid, 0, col as int),
            landing_row(*grid, col as int) == landing_row_from(*grid, col as int, row as int),
        decreases row,
    {
        row -= 1;
    }
    row
}

/// `after` is `before` with `player`'s token added at (`r`, `c`).
pub open spec fn drops_token(before: Grid, after: Grid, r: int, c: int, player: Seq<char>) -> bool {
    forall|r2: int, c2: int|
        0 <= r2 < 6 && 0 <= c2 < 7 ==> #[trigger] cell(after, r2, c2) == if r2 == r && c2 == c {
            player
        } else {
            cell(before, r2, c2)
        }
}

/// The move may be played: it is the mover's turn, the game is in play and
/// the column still has room.
pub open spec fn move_allowed(game: Game, mv: Move) -> bool {
    &&& mv.column < 7
    &&& mv.player_id@ == game.turn@
    &&& game.status@ == active()
    &&& is_empty_cell(game.grid, 0, mv.column as int)
}

/// What became of a move.
#[derive(Debug, Clone, Copy, PartialEq, Eq, Structural)]
pub enum MoveOutcome {
    /// Not the mover's turn, game not in play, or column full: nothing changed.
    Rejected,
    /// The token was dropped and the game goes on.
    Placed,
    /// The token was dropped and completed four in a row.
    Won,
}

/// The game `after`, with `outcome`, is what playing `mv` on `before` gives:
/// a move that is not allowed changes nothing; an allowed one drops the
/// mover's token to the lowest empty square of the column, records a win if
/// that token completes four in a row, and passes the turn to the other
/// player.
pub open spec fn move_result(before: Game, mv: Move, after: Game, outcome: MoveOutcome) -> bool {
    if !move_allowed(before, mv) {
        outcome == MoveOutcome::Rejected && after == before
    } else {
        let r = landing_row(before.grid, mv.column as int);
        let won = wins_at(before.grid, mv.player_id@, r, mv.column as int);
        &&& 0 <= r < 6
        &&& drops_token(before.grid, after.grid, r, mv.column as int, mv.player_id@)
        &&& outcome == (if won { MoveOutcome::Won } else { MoveOutcome::Placed })
        &&& after.status@ == (if !won {
            before.status@
        } else if mv.player_id@ == before.player_1@ {
            player_1_won()
        } else {
            player_2_won()
        })
        &&& after.turn@ == (if before.turn@ == before.player_1@ {
            before.player_2@
        } else {
            before.player_1@
        })
        &&& after.id == before.id
        &&& after.player_1 == before.player_1
        &&& after.player_2 == before.player_2
        &&& after.channel == before.channel
    }
}

/// Plays `mv` on `game`. A move that is not allowed changes nothing. An
/// allowed one drops the mover's token to the lowest empty square of the
/// column; if that token completes four in a row the game's status becomes
/// `player_1_won` or `player_2_won` after the mover; in any case the turn
/// passes to the other player.
pub fn play_move(game: &mut Game, mv: Move) -> (outcome: MoveOutcome)
    requires
        mv.column < 7,
    ensures
        move_result(*old(game), mv, *final(game), outcome),
{
    let column = mv.column;
    let not_your_turn = mv.player_id != game.turn;
    let not_active = game.status != "active".to_owned();
    let column_full = !is_blank(&game.grid[0][column]);
    if not_your_turn || not_active || column_full {
        return MoveOutcome::Rejected;
    }
    proof {
        lemma_landing_row(game.grid, column as int);
    }
    let row_index = find_landing_row(&game.grid, column);
    let won = player_won(&mv.player_id, &game.grid, row_index, column);
    if won {
        game.status = if mv.player_id == game.player_1 {
            "player_1_won".to_owned()
        } else {
            "player_2_won".to_owned()
        };
    }
    game.grid[row_index][column] = mv.player_id;
    if game.turn == game.player_1 {
        game.turn = game.player_2.clone();
    } else {
        game.turn = game.player_1.clone();
    }
    if won {
        MoveOutcome::Won
    } else {
        MoveOutcome::Placed
    }
}

} // verus!
