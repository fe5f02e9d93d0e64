use connect4::client::{
    create_game_disabled, has_prefix, is_finished, is_your_turn, join_request, placeholder_game, square_token,
    ApiHandler, BoardProps, GameListProps, Route,
};
use connect4::game::{empty_grid, UserInfo};

fn handler(name: &str, key: Option<&str>) -> ApiHandler {
    ApiHandler {
        user_info: UserInfo {
            username: name.to_string(),
            password: "pw".to_string(),
            api_key: key.map(|k| k.to_string()),
        },
    }
}

#[test]
fn the_stored_user_is_remembered() {
    let h = ApiHandler::new(Some("alice".to_string()), Some("pw".to_string()));
    assert_eq!(h.user_info.username, "alice");
    assert_eq!(h.user_info.password, "pw");
    assert_eq!(h.user_info.api_key, None);
    let h = ApiHandler::new(None, None);
    assert_eq!(h.user_info.username, "");
    assert_eq!(h.user_info.password, "");
}

#[test]
fn authenticated_requests_carry_name_and_key() {
    let auth = handler("alice", Some("k1")).auth();
    assert_eq!(auth.username(), "alice");
    assert_eq!(auth.api_key(), "k1");
    let auth = handler("alice", None).auth();
    assert_eq!(auth.api_key(), "");
}

#[test]
fn log_in_on_start_only_for_a_remembered_name() {
    let request = handler("alice", Some("old")).login_request().unwrap();
    assert_eq!(request.username, "alice");
    assert_eq!(request.password, "pw");
    assert_eq!(request.api_key, None);
    assert!(handler("", None).login_request().is_none());
}

#[test]
fn signing_in_stores_the_key() {
    let h = handler("alice", None);
    assert!(!h.is_logged_in());
    let signed = h.signed_in(Some("k2".to_string())).unwrap();
    assert!(signed.is_logged_in());
    assert_eq!(signed.user_info.username, "alice");
    assert_eq!(signed.user_info.api_key.as_deref(), Some("k2"));
    assert!(h.signed_in(None).is_none());
    assert_eq!(h.with_api_key(None).user_info.api_key, None);
    let form = UserInfo::credentials("bob".to_string(), "x".to_string());
    assert_eq!(form.username, "bob");
    assert_eq!(form.password, "x");
    assert_eq!(form.api_key, None);
}

#[test]
fn squares_show_x_for_the_viewer_and_o_for_the_opponent() {
    let me = "alice".to_string();
    assert_eq!(square_token(&String::new(), &me), "");
    assert_eq!(square_token(&"alice".to_string(), &me), "x");
    assert_eq!(square_token(&"bob".to_string(), &me), "o");
}

#[test]
fn a_room_starts_from_a_placeholder() {
    let game = placeholder_game("g1".to_string());
    assert_eq!(game.id, "g1");
    assert_eq!(game.status, "");
    assert_eq!(game.turn, "");
    assert_eq!(game.grid, empty_grid());
    let props = BoardProps { game: game.clone(), player_id: "alice".to_string() };
    assert_eq!(props.game.id, "g1");
    let list = GameListProps { games: vec![game] };
    assert_eq!(list.games.len(), 1);
}

#[test]
fn whose_turn_it_is() {
    let mut game = placeholder_game("g1".to_string());
    game.turn = "alice".to_string();
    assert!(!is_your_turn(&game, &"alice".to_string()));
    game.status = "active".to_string();
    assert!(is_your_turn(&game, &"alice".to_string()));
    assert!(!is_your_turn(&game, &"bob".to_string()));
}

#[test]
fn finished_games() {
    assert!(is_finished(&"player_1_won".to_string()));
    assert!(is_finished(&"player_2_won".to_string()));
    assert!(!is_finished(&"active".to_string()));
    assert!(!is_finished(&"player".to_string()));
    assert!(!is_finished(&String::new()));
    assert!(has_prefix("abc", ""));
    assert!(has_prefix("abc", "abc"));
    assert!(!has_prefix("ab", "abc"));
    assert!(!has_prefix("abd", "abc"));
}

#[test]
fn the_lobby_caps_the_number_of_games() {
    assert!(!create_game_disabled(0));
    assert!(!create_game_disabled(2));
    assert!(create_game_disabled(3));
    assert!(create_game_disabled(4));
}

#[test]
fn join_requests_name_game_and_player() {
    let game = placeholder_game("g5".to_string());
    let request = join_request(&game, &"bob".to_string());
    assert_eq!(request.game, "g5");
    assert_eq!(request.player, "bob");
}

#[test]
fn routes() {
    let room = Route::Room { game_id: "g1".to_string() };
    assert!(matches!(room, Route::Room { ref game_id } if game_id == "g1"));
    assert!(matches!(Route::Lobby, Route::Lobby));
}
