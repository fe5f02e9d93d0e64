//! The decisions the web client takes: who the user is, what it shows of a
//! game, and which requests it may send.
use vstd::prelude::*;
use crate::game::{Game, NewPlayer, UserInfo, MAX_NUMBER_OF_GAMES, active, empty_grid, grid_is_empty};
use crate::server::UserAuth;

verus! {

/// The client's view of its user: the credentials it keeps, and the API key
/// once the server issued one.
#[derive(Debug, Clone)]
pub struct ApiHandler {
    pub user_info: UserInfo,
}

/// The text, or the empty text when there is none.
pub open spec fn text_or_empty(text: Option<String>) -> Seq<char> {
    match text {
        Some(t) => t@,
        None => Seq::empty(),
    }
}

fn string_or_empty(text: Option<String>) -> (s: String)
    ensures
        s@ == text_or_empty(text),
{
    match text {
        Some(t) => t,
        None => String::new(),
    }
}

/// A copy of the text, when there is one.
fn copy_text(text: &Option<String>) -> (copy: Option<String>)
    ensures
        copy matches Some(c) ==> text matches Some(t) && c@ == t@,
        copy is None <==> text is None,
{
    match text {
        Some(t) => Some(t.clone()),
        None => None,
    }
}

/// The name is that of a user: not empty.
pub open spec fn names_someone(name: Seq<char>) -> bool {
    name.len() > 0
}

impl UserInfo {
    /// The credentials typed into a form, with no API key yet.
    pub fn credentials(username: String, password: String) -> (user: UserInfo)
        ensures
            user.username@ == username@,
            user.password@ == password@,
            user.api_key is None,
    {
        UserInfo { username, password, api_key: None }
    }
}

impl ApiHandler {
    /// The client's user as the browser's storage remembers it: the stored
    /// name and password, the empty text for either that is not stored, and
    /// no API key.
    pub fn new(stored_username: Option<String>, stored_password: Option<String>) -> (handler: ApiHandler)
        ensures
            handler.user_info.username@ == text_or_empty(stored_username),
            handler.user_info.password@ == text_or_empty(stored_password),
            handler.user_info.api_key is None,
    {
        ApiHandler {
            user_info: UserInfo {
                username: string_or_empty(stored_username),
                password: string_or_empty(stored_password),
                api_key: None,
            },
        }
    }

    /// The credentials that authenticated requests carry: the user's name
    /// and its API key, or the empty text when it has none.
    pub fn auth(&self) -> (auth: UserAuth)
        ensures
            auth.name_view() == self.user_info.username@,
            auth.key_view() == (match self.user_info.api_key {
                Some(k) => k@,
                None => Seq::<char>::empty(),
            }),
    {
        let api_key = match &self.user_info.api_key {
            Some(k) => k.clone(),
            None => String::new(),
        };
        UserAuth::new(self.user_info.username.clone(), api_key)
    }

    /// The user is logged in: it holds an API key.
    pub fn is_logged_in(&self) -> (logged_in: bool)
        ensures
            logged_in == self.user_info.api_key is Some,
    {
        self.user_info.api_key.is_some()
    }

    /// The log-in the client sends on start: the remembered name and
    /// password without an API key, if a name is remembered at all.
    pub fn login_request(&self) -> (request: Option<UserInfo>)
        ensures
            names_someone(self.user_info.username@) ==> (request matches Some(user) && {
                &&& user.username@ == self.user_info.username@
                &&& user.password@ == self.user_info.password@
                &&& user.api_key is None
            }),
            !names_someone(self.user_info.username@) ==> request is None,
            self.user_info.username@.len() > 0 ==> (request matches Some(user) && user.username@
                == self.user_info.username@ && user.password@ == self.user_info.password@),
            self.user_info.username@.len() == 0 ==> request is None,
    {
        if self.user_info.username.as_str().is_empty() {
            None
        } else {
            Some(UserInfo::credentials(self.user_info.username.clone(), self.user_info.password.clone()))
        }
    }

    /// The same user with `api_key` as its API key.
    pub fn with_api_key(&self, api_key: Option<String>) -> (handler: ApiHandler)
        ensures
            handler.user_info.username@ == self.user_info.username@,
            handler.user_info.password@ == self.user_info.password@,
            handler.user_info.api_key == api_key,
    {
        ApiHandler {
            user_info: UserInfo {
                username: self.user_info.username.clone(),
                password: self.user_info.password.clone(),
                api_key,
            },
        }
    }

    /// The user after the server answered a log-in or sign-up with `key`:
    /// logged in with that key if the server issued one; unchanged (`None`)
    /// if it refused.
    pub fn signed_in(&self, key: Option<String>) -> (handler: Option<ApiHandler>)
        ensures
            key is None ==> handler is None,
            key matches Some(k) ==> (handler matches Some(h) && {
                &&& h.user_info.username@ == self.user_info.username@
                &&& h.user_info.password@ == self.user_info.password@
                &&& h.user_info.api_key == Some(k)
            }),
    {
        match key {
            Some(k) => Some(self.with_api_key(Some(k))),
            None => None,
        }
    }
}

/// The routes of the client: the lobby, and the room of one game.
#[derive(Debug, Clone)]
pub enum Route {
    Lobby,
    Room { game_id: String },
}

/// What the board of a game shows to `player_id`.
#[derive(Debug, Clone)]
pub struct BoardProps {
    pub game: Game,
    pub player_id: String,
}

/// The games the lobby lists.
#[derive(Debug, Clone)]
pub struct GameListProps {
    pub games: Vec<Game>,
}

/// The mark a square shows to `player_id`: nothing when it is empty, `x`
/// for the viewer's own token, `o` for the opponent's.
pub fn square_token(square: &String, player_id: &String) -> (token: &'static str)
    ensures
        token@ == (if square@.len() == 0 {
            ""@
        } else if square@ == player_id@ {
            "x"@
        } else {
            "o"@
        }),
{
    if square.as_str().is_empty() {
        ""
    } else if *square == *player_id {
        "x"
    } else {
        "o"
    }
}

/// The game a room shows before the server sent it: the id alone, with an
/// empty grid and every other field empty.
pub fn placeholder_game(game_id: String) -> (game: Game)
    ensures
        game.id@ == game_id@,
        game.player_1@.len() == 0,
        game.player_2@.len() == 0,
        grid_is_empty(game.grid),
        game.turn@.len() == 0,
        game.channel@.len() == 0,
        game.status@.len() == 0,
{
    Game {
        id: game_id,
        player_1: String::new(),
        player_2: String::new(),
        grid: empty_grid(),
        turn: String::new(),
        channel: String::new(),
        status: String::new(),
    }
}

/// It is `username`'s turn in a game in play.
pub fn is_your_turn(game: &Game, username: &String) -> (yours: bool)
    ensures
        yours == (game.turn@ == username@ && game.status@ == active()),
{
    *username == game.turn && game.status == "active".to_owned()
}

/// `text` begins with `prefix`.
pub fn has_prefix(text: &str, prefix: &str) -> (begins: bool)
    ensures
        begins == (prefix@.len() <= text@.len() && text@.subrange(0, prefix@.len() as int) == prefix@),
{
    let n = prefix.unicode_len();
    if n > text.unicode_len() {
        return false;
    }
    let mut i: usize = 0;
    while i < n
        invariant
            n == prefix@.len(),
            n <= text@.len(),
            i <= n,
            forall|j: int| 0 <= j < i ==> text@[j] == prefix@[j],
        decreases n - i,
    {
        if text.get_char(i) != prefix.get_char(i) {
            assert(text@.subrange(0, n as int)[i as int] != prefix@[i as int]);
            return false;
        }
        i += 1;
    }
    assert(text@.subrange(0, n as int) =~= prefix@);
    true
}

/// The game is over, its status naming the winner (`player_1_won` or
/// `player_2_won`): the room stops listening for its updates.
pub fn is_finished(status: &String) -> (finished: bool)
    ensures
        finished == (status@.len() >= 7 && status@.subrange(0, 7) == "player_"@),
{
    proof {
        reveal_strlit("player_");
    }
    has_prefix(status.as_str(), "player_")
}

/// The lobby offers no new game once `game_count` games run.
pub fn create_game_disabled(game_count: usize) -> (disabled: bool)
    ensures
        disabled == (game_count >= MAX_NUMBER_OF_GAMES),
{
    MAX_NUMBER_OF_GAMES <= game_count
}

/// The request by which `username` joins `game`.
pub fn join_request(game: &Game, username: &String) -> (request: NewPlayer)
    ensures
        request.game@ == game.id@,
        request.player@ == username@,
{
    NewPlayer { player: username.clone(), game: game.id.clone() }
}

} // verus!
