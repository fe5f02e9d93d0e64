//! The decisions the game server takes around its database and its event
//! channels: which reply a request gets, which records it writes.
use vstd::prelude::*;
use crate::board::Grid;
use crate::game::{Game, MoveOutcome, UserInfo, not_started, active};
use crate::ids::{fresh_id, is_v4_uuid_text};

verus! {

/// A room as the server once kept it: the players, the moves made, the chat
/// and the grid.
#[derive(Debug, Clone)]
pub struct GameRoom {
    pub id: String,
    pub player_1: String,
    pub player_2: String,
    pub turn: String,
    pub moves: Vec<String>,
    pub chat_log: Vec<String>,
    pub grid: Grid,
}

/// An event channel of the server; a game holds one while it runs.
#[derive(Debug, Clone)]
pub struct Channel {
    pub id: String,
    pub taken: bool,
}

/// A database call failed.
#[derive(Debug, Clone, Copy, PartialEq, Eq, Structural)]
pub struct DbFailure;

/// The HTTP failures the server answers with.
#[derive(Debug, Clone, Copy, PartialEq, Eq, Structural)]
pub enum Failure {
    /// 400: the request lacks something it must carry.
    BadRequest,
    /// 401: the credentials are not valid.
    Unauthorized,
    /// 404: the game does not exist.
    NotFound,
    /// 409: every event channel is taken.
    Conflict,
    /// 503: the database did not answer.
    ServiceUnavailable,
}

impl Failure {
    /// The HTTP status code of the failure.
    pub fn code(&self) -> (code: u16)
        ensures
            code == match *self {
                Failure::BadRequest => 400u16,
                Failure::Unauthorized => 401u16,
                Failure::NotFound => 404u16,
                Failure::Conflict => 409u16,
                Failure::ServiceUnavailable => 503u16,
            },
    {
        match self {
            Failure::BadRequest => 400,
            Failure::Unauthorized => 401,
            Failure::NotFound => 404,
            Failure::Conflict => 409,
            Failure::ServiceUnavailable => 503,
        }
    }
}

/// The game that a lookup by id found: a failed lookup is answered 503, a
/// lookup that found nothing 404.
pub fn found_game(lookup: Result<Option<Game>, DbFailure>) -> (found: Result<Game, Failure>)
    ensures
        found == match lookup {
            Err(_) => Err(Failure::ServiceUnavailable),
            Ok(None) => Err(Failure::NotFound),
            Ok(Some(game)) => Ok::<Game, Failure>(game),
        },
{
    match lookup {
        Err(_) => Err(Failure::ServiceUnavailable),
        Ok(None) => Err(Failure::NotFound),
        Ok(Some(game)) => Ok(game),
    }
}

/// The channel a new game gets: the free one the database found; a failed
/// lookup is answered 503, and 409 when every channel is taken.
pub fn claim_channel(lookup: Result<Option<Channel>, DbFailure>) -> (claimed: Result<Channel, Failure>)
    ensures
        claimed == match lookup {
            Err(_) => Err(Failure::ServiceUnavailable),
            Ok(None) => Err(Failure::Conflict),
            Ok(Some(channel)) => Ok::<Channel, Failure>(channel),
        },
{
    match lookup {
        Err(_) => Err(Failure::ServiceUnavailable),
        Ok(None) => Err(Failure::Conflict),
        Ok(Some(channel)) => Ok(channel),
    }
}

/// A game still shows in the lobby while it waits for a second player or is
/// in play.
pub open spec fn is_open_game(game: Game) -> bool {
    game.status@ == not_started() || game.status@ == active()
}

/// Whether the game still shows in the lobby.
pub fn is_open(game: &Game) -> (open: bool)
    ensures
        open == is_open_game(*game),
{
    game.status == "not_started".to_owned() || game.status == "active".to_owned()
}

/// The games of `games` that still show in the lobby, in their order.
pub fn active_games(games: Vec<Game>) -> (open: Vec<Game>)
    ensures
        open@ == games@.filter(|g: Game| is_open_game(g)),
{
    let ghost all = games@;
    let ghost pred = |g: Game| is_open_game(g);
    let mut open: Vec<Game> = Vec::new();
    let mut rest = games;
    let ghost mut done: int = 0;
    while rest.len() > 0
        invariant
            0 <= done <= all.len(),
            pred == (|g: Game| is_open_game(g)),
            rest@ == all.subrange(done, all.len() as int),
            open@ == all.take(done).filter(pred),
        decreases rest.len(),
    {
        let game = rest.remove(0);
        proof {
            assert(all.take(done + 1) =~= all.take(done).push(game));
            all.take(done).lemma_filter_push(game, pred);
        }
        let keep = is_open(&game);
        if keep {
            open.push(game);
        }
        proof {
            done = done + 1;
        }
    }
    assert(all.take(done) =~= all);
    open
}

/// The three event channels the server starts with, each free and with a
/// fresh random id.
pub fn fresh_channels() -> (channels: Vec<Channel>)
    ensures
        channels@.len() == 3,
        forall|i: int| 0 <= i < 3 ==> !(#[trigger] channels@[i]).taken && is_v4_uuid_text(channels@[i].id@),
{
    let mut channels: Vec<Channel> = Vec::new();
    for _i in 0usize..3
        invariant
            channels@.len() == _i,
            forall|j: int| 0 <= j < _i ==> !(#[trigger] channels@[j]).taken && is_v4_uuid_text(channels@[j].id@),
    {
        channels.push(Channel { id: fresh_id(), taken: false });
    }
    channels
}

/// The accounts the server starts with: `admin` and `admin2`, each with its
/// name as password and as API key.
pub fn admin_accounts() -> (admins: Vec<UserInfo>)
    ensures
        admins@.len() == 2,
        admins@[0].username@ == "admin"@,
        admins@[0].password@ == "admin"@,
        admins@[0].api_key matches Some(k) && k@ == "admin"@,
        admins@[1].username@ == "admin2"@,
        admins@[1].password@ == "admin2"@,
        admins@[1].api_key matches Some(k) && k@ == "admin2"@,
{
    let mut admins: Vec<UserInfo> = Vec::new();
    admins.push(UserInfo { username: "admin".to_owned(), password: "admin".to_owned(), api_key: Some("admin".to_owned()) });
    admins.push(UserInfo { username: "admin2".to_owned(), password: "admin2".to_owned(), api_key: Some("admin2".to_owned()) });
    admins
}

/// The credentials a request carries in its `x-api-key` header: a user's
/// name and the API key the server issued to it.
#[derive(Debug, Clone)]
pub struct UserAuth {
    api_key: String,
    username: String,
}

impl UserAuth {
    /// The user's name, as text.
    pub closed spec fn name_view(&self) -> Seq<char> {
        self.username@
    }

    /// The API key, as text.
    pub closed spec fn key_view(&self) -> Seq<char> {
        self.api_key@
    }

    /// The credentials of `username` with `api_key`.
    pub fn new(username: String, api_key: String) -> (auth: UserAuth)
        ensures
            auth.name_view() == username@,
            auth.key_view() == api_key@,
    {
        UserAuth { api_key, username }
    }

    /// The user's name.
    pub fn username(&self) -> (name: &String)
        ensures
            name@ == self.name_view(),
    {
        &self.username
    }

    /// The API key.
    pub fn api_key(&self) -> (key: &String)
        ensures
            key@ == self.key_view(),
    {
        &self.api_key
    }
}

/// Why a request's credentials were refused.
#[derive(Debug, Clone, Copy, PartialEq, Eq, Structural)]
pub enum UserAuthError {
    /// The request has no `x-api-key` header.
    Missing,
    /// No user has that name and API key.
    Invalid,
    /// The database did not answer.
    InternalError,
}

/// The verdict on a request's credentials, from the database's answer to
/// whether a user with that name and API key exists (`None` when the request
/// carries no credentials): accepted, or the failure and its reason.
pub fn auth_verdict(lookup: Option<Result<bool, DbFailure>>) -> (verdict: Result<(), (Failure, UserAuthError)>)
    ensures
        verdict == match lookup {
            None => Err((Failure::BadRequest, UserAuthError::Missing)),
            Some(Err(_)) => Err((Failure::ServiceUnavailable, UserAuthError::InternalError)),
            Some(Ok(false)) => Err((Failure::Unauthorized, UserAuthError::Invalid)),
            Some(Ok(true)) => Ok::<(), (Failure, UserAuthError)>(()),
        },
{
    match lookup {
        None => Err((Failure::BadRequest, UserAuthError::Missing)),
        Some(Err(_)) => Err((Failure::ServiceUnavailable, UserAuthError::InternalError)),
        Some(Ok(false)) => Err((Failure::Unauthorized, UserAuthError::Invalid)),
        Some(Ok(true)) => Ok(()),
    }
}

/// The answer to a log-in, from whether the database found a user with the
/// given name and password: a fresh random API key for a user it found,
/// `None` for one it did not, and the failure when the lookup failed.
pub fn issue_api_key(found: Result<bool, DbFailure>) -> (key: Result<Option<String>, DbFailure>)
    ensures
        match found {
            Err(e) => key == Err::<Option<String>, DbFailure>(e),
            Ok(false) => key == Ok::<Option<String>, DbFailure>(None),
            Ok(true) => key matches Ok(Some(k)) && is_v4_uuid_text(k@),
        },
{
    match found {
        Err(e) => Err(e),
        Ok(false) => Ok(None),
        Ok(true) => Ok(Some(fresh_id())),
    }
}

/// The account to create on a sign-up, from whether the database already
/// holds a user of that name: none if it does, else one with the given name
/// and password and a fresh random API key; the failure when the lookup
/// failed.
pub fn new_account(existing: Result<bool, DbFailure>, username: String, password: String) -> (account: Result<Option<UserInfo>, DbFailure>)
    ensures
        match existing {
            Err(e) => account == Err::<Option<UserInfo>, DbFailure>(e),
            Ok(true) => account == Ok::<Option<UserInfo>, DbFailure>(None),
            Ok(false) => account matches Ok(Some(user)) && {
                &&& user.username@ == username@
                &&& user.password@ == password@
                &&& user.api_key matches Some(k) && is_v4_uuid_text(k@)
            },
        },
{
    match existing {
        Err(e) => Err(e),
        Ok(true) => Ok(None),
        Ok(false) => Ok(Some(UserInfo { username, password, api_key: Some(fresh_id()) })),
    }
}

/// The cross-origin policy the server attaches to its responses.
#[derive(Debug, Clone, Copy)]
pub struct CORS;

impl CORS {
    /// The origin allowed to call the server: the local web client in a
    /// debug build, the deployed one otherwise.
    pub fn allowed_origin(&self, debug_profile: bool) -> (origin: &'static str)
        ensures
            origin@ == (if debug_profile {
                "http://localhost:8080"@
            } else {
                "https://connect4rust.netlify.app"@
            }),
    {
        if debug_profile {
            "http://localhost:8080"
        } else {
            "https://connect4rust.netlify.app"
        }
    }

    /// The request header that cross-origin callers may send.
    pub fn allowed_headers(&self) -> (headers: &'static str)
        ensures
            headers@ == "x-api-key"@,
    {
        "x-api-key"
    }
}

/// The answer to any `OPTIONS` request: nothing.
pub fn all_options() {
}

/// The body of a 503 answer.
pub fn service_unavailable() -> (body: String)
    ensures
        body@ == "Something went wrong"@,
{
    "Something went wrong".to_owned()
}

/// The body of a 404 answer.
pub fn not_found() -> (body: String)
    ensures
        body@ == "Not found"@,
{
    "Not found".to_owned()
}

/// The port the server listens on unless told otherwise.
pub const DEFAULT_PORT: u64 = 8000;

/// The character is a decimal digit.
pub open spec fn is_digit(ch: char) -> bool {
    '0' <= ch && ch <= '9'
}

/// The number that a string of decimal digits writes.
pub open spec fn decimal_value(digits: Seq<char>) -> nat
    decreases digits.len(),
{
    if digits.len() == 0 {
        0
    } else {
        decimal_value(digits.drop_last()) * 10 + ((digits.last() as int) - ('0' as int)) as nat
    }
}

/// The number that `text` writes as an optional `+` followed by one or
/// more decimal digits, if it does and the number fits in a `u64`.
pub open spec fn parsed_u64(text: Seq<char>) -> Option<u64> {
    let digits = if text.len() > 0 && text[0] == '+' {
        text.drop_first()
    } else {
        text
    };
    if digits.len() > 0 && (forall|i: int| 0 <= i < digits.len() ==> is_digit(#[trigger] digits[i]))
        && decimal_value(digits) <= u64::MAX {
        Some(decimal_value(digits) as u64)
    } else {
        None
    }
}

/// `str::parse::<u64>`, read as an `Option`: as std documents it, the text
/// must be an optional `+` sign followed by only decimal digits, at least
/// one, writing a number that fits in a `u64`; anything else is an error.
#[verifier::external_body]
fn parse_u64(text: &str) -> (number: Option<u64>)
    ensures
        number == parsed_u64(text@),
{
    text.parse::<u64>().ok()
}

/// The port to listen on, from the value of the `PORT` environment variable
/// if it is set: the number it writes, or the default port when it is unset
/// or is not a number.
pub fn port_from_env(value: Option<String>) -> (port: u64)
    ensures
        port == match value {
            Some(text) => match parsed_u64(text@) {
                Some(number) => number,
                None => DEFAULT_PORT,
            },
            None => DEFAULT_PORT,
        },
{
    match value {
        Some(text) => match parse_u64(text.as_str()) {
            Some(number) => number,
            None => DEFAULT_PORT,
        },
        None => DEFAULT_PORT,
    }
}

/// What the event stream of a game or of the lobby waits on delivered.
#[derive(Debug, Clone)]
pub enum StreamEvent<T> {
    /// An update broadcast on the channel.
    Message(T),
    /// The receiver fell behind and missed some updates.
    Lagged,
    /// Every sender of the channel is gone.
    Closed,
    /// The server is shutting down.
    Shutdown,
}

/// What the event stream does next.
#[derive(Debug, Clone)]
pub enum StreamAction<T> {
    /// Send the update to the client, then wait again.
    Forward(T),
    /// Send nothing, and wait again.
    Skip,
    /// End the stream.
    Stop,
}

/// One step of an event stream: forward each update, skip over missed ones,
/// and end when the channel closes or the server shuts down.
pub fn stream_step<T>(event: StreamEvent<T>) -> (action: StreamAction<T>)
    ensures
        match event {
            StreamEvent::Message(m) => action == StreamAction::Forward(m),
            StreamEvent::Lagged => action == StreamAction::<T>::Skip,
            StreamEvent::Closed | StreamEvent::Shutdown => action == StreamAction::<T>::Stop,
        },
{
    match event {
        StreamEvent::Message(m) => StreamAction::Forward(m),
        StreamEvent::Lagged => StreamAction::Skip,
        StreamEvent::Closed => StreamAction::Stop,
        StreamEvent::Shutdown => StreamAction::Stop,
    }
}

/// What the server does once a move was tried on a game.
#[derive(Debug, Clone, Copy, PartialEq, Eq, Structural)]
pub struct MoveEffects {
    /// Store the game and broadcast it on its channel.
    pub save_and_broadcast: bool,
    /// Free the game's channel and send the lobby its new list of games.
    pub release_channel: bool,
}

/// The effects of a move: none for a rejected move; storing and
/// broadcasting the game for a played one; and for a winning one also
/// freeing its channel and refreshing the lobby.
pub fn move_effects(outcome: MoveOutcome) -> (effects: MoveEffects)
    ensures
        effects.save_and_broadcast == (outcome != MoveOutcome::Rejected),
        effects.release_channel == (outcome == MoveOutcome::Won),
{
    match outcome {
        MoveOutcome::Rejected => MoveEffects { save_and_broadcast: false, release_channel: false },
        MoveOutcome::Placed => MoveEffects { save_and_broadcast: true, release_channel: false },
        MoveOutcome::Won => MoveEffects { save_and_broadcast: true, release_channel: true },
    }
}

} // verus!
