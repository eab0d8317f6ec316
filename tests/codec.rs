use secret_santa::text::{parse_game_id, parse_user_id};
use secret_santa::utils::{Game, GameId, User, UserId};

#[test]
fn keys_differ_between_users_and_games() {
    let u = UserId(5).to_key();
    let g = GameId(5).to_key();
    assert_ne!(u, g);
    assert_ne!(UserId(5).to_key(), UserId(6).to_key());
    assert_eq!(String::from_utf8(u).unwrap(), "(\"user\",5)");
}

#[test]
fn user_record_reads_back() {
    let user = User {
        id: UserId(-3),
        username: "Zoë \"quoted\"".to_string(),
        admin_games: vec![GameId(1)],
        active_games: vec![GameId(2), GameId(3)],
        pending_games: vec![],
    };
    let bytes = user.to_ron();
    assert!(!bytes.is_empty());
    let back = User::from_ron(&bytes, UserId(-3)).unwrap();
    assert_eq!(back.username, user.username);
    assert_eq!(back.active_games, user.active_games);
    assert!(User::from_ron(&bytes, UserId(4)).is_none());
    let mut spaced = b" ".to_vec();
    spaced.extend_from_slice(&bytes);
    assert!(User::from_ron(&spaced, UserId(-3)).is_none());
}

#[test]
fn game_record_reads_back() {
    let game = Game {
        id: GameId(u64::MAX),
        name: "G".to_string(),
        admin: UserId(1),
        active_users: vec![UserId(2)],
        pending_users: vec![UserId(3)],
    };
    let bytes = game.to_ron();
    let back = Game::from_ron(&bytes, GameId(u64::MAX)).unwrap();
    assert_eq!(back.pending_users, vec![UserId(3)]);
    assert!(Game::from_ron(&b"garbage".to_vec(), GameId(1)).is_none());
}

#[test]
fn ids_are_read_from_text() {
    assert_eq!(parse_game_id("42"), Some(GameId(42)));
    assert_eq!(parse_game_id("+7"), Some(GameId(7)));
    assert_eq!(parse_game_id("-1"), None);
    assert_eq!(parse_game_id(""), None);
    assert_eq!(parse_game_id("18446744073709551616"), None);
    assert_eq!(parse_user_id("-12"), Some(UserId(-12)));
    assert_eq!(parse_user_id("x1"), None);
}
