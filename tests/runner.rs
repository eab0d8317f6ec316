use secret_santa::errors::RunnerError;
use secret_santa::runner::{join_step, promote_step, withdraw_step, Runner};
use secret_santa::utils::{Game, GameId, User, UserId};

fn fresh_runner() -> Runner {
    let db = sled::Config::new().temporary(true).open().unwrap();
    Runner::from_db(db)
}

fn usernames(runner: &Runner, ids: &[i64]) -> Vec<String> {
    ids.iter()
        .map(|i| runner.get_user(&UserId(*i)).unwrap().unwrap().username)
        .collect()
}

/// Checks the agreement of user and game records for the given ids.
fn assert_consistent(runner: &Runner, users: &[i64], games: &[GameId]) {
    for u in users {
        let user = runner.get_user(&UserId(*u)).unwrap();
        for g in games {
            let game = runner.get_game(g).unwrap();
            let (ua, up, uadm) = match &user {
                Some(x) => (
                    x.active_games.contains(g),
                    x.pending_games.contains(g),
                    x.admin_games.contains(g),
                ),
                None => (false, false, false),
            };
            let (ga, gp, gadm) = match &game {
                Some(x) => (
                    x.active_users.contains(&UserId(*u)),
                    x.pending_users.contains(&UserId(*u)),
                    x.admin == UserId(*u),
                ),
                None => (false, false, false),
            };
            assert_eq!(ua, ga);
            assert_eq!(up, gp);
            assert_eq!(uadm, gadm);
        }
    }
}

#[test]
fn register_join_promote_run_with_one_player() {
    let mut r = fresh_runner();
    r.new_user(UserId(1), "A".to_string()).unwrap();
    r.new_user(UserId(2), "B".to_string()).unwrap();
    let g = r.new_game(UserId(1), "Secret".to_string()).unwrap();
    r.add_user_to_pending(&UserId(2), &g).unwrap();
    let b = r.get_user(&UserId(2)).unwrap().unwrap();
    assert_eq!(b.pending_games, vec![g]);
    let game = r.get_game(&g).unwrap().unwrap();
    assert_eq!(game.pending_users, vec![UserId(2)]);
    assert_eq!(game.name, "Secret");
    assert_eq!(game.admin, UserId(1));

    r.promote_user_from_pending_to_active(&UserId(2), &g).unwrap();
    let b = r.get_user(&UserId(2)).unwrap().unwrap();
    assert!(b.pending_games.is_empty());
    assert_eq!(b.active_games, vec![g]);
    let game = r.get_game(&g).unwrap().unwrap();
    assert!(game.pending_users.is_empty());
    assert_eq!(game.active_users, vec![UserId(2)]);

    let msgs = r.run_game(g).unwrap();
    assert_eq!(msgs.len(), 2);
    assert_eq!(msgs[0].0, UserId(2));
    assert_eq!(
        msgs[0].1,
        "It looks like there's only one participant :(We can't run this game."
    );
    assert_eq!(msgs[1].0, UserId(1));
    assert_eq!(
        msgs[1].1,
        "All messages have been sent successfully!It seems like there was less than 2 players so there'll be no presents :("
    );
    assert!(r.get_game(&g).unwrap().is_none());
    let a = r.get_user(&UserId(1)).unwrap().unwrap();
    assert!(a.admin_games.is_empty());
    let b = r.get_user(&UserId(2)).unwrap().unwrap();
    assert!(b.active_games.is_empty());
}

#[test]
fn run_with_three_players_gives_a_derangement() {
    let mut r = fresh_runner();
    r.new_user(UserId(10), "admin".to_string()).unwrap();
    for (i, name) in [(1, "one"), (2, "two"), (3, "three")] {
        r.new_user(UserId(i), name.to_string()).unwrap();
    }
    let g = r.new_game(UserId(10), "Party".to_string()).unwrap();
    for i in 1..=3 {
        r.add_user_to_pending(&UserId(i), &g).unwrap();
        r.promote_user_from_pending_to_active(&UserId(i), &g).unwrap();
    }
    let names = usernames(&r, &[1, 2, 3]);
    let msgs = r.run_game(g).unwrap();
    assert_eq!(msgs.len(), 4);
    let givers: Vec<i64> = msgs[..3].iter().map(|m| m.0 .0).collect();
    assert_eq!(givers, vec![1, 2, 3]);
    let mut receivers = Vec::new();
    for (k, m) in msgs[..3].iter().enumerate() {
        let giver_name = &names[k];
        let receiver = names
            .iter()
            .position(|n| {
                m.1 == format!(
                    "Ho Ho Ho, {giver_name}!\n\nAs a result of participating in game Party. It looks like you have to prepare a present for {n}!\n\nHave a happy new year, your secret santa bot."
                )
            })
            .expect("a gift message names a player");
        assert_ne!(receiver, k);
        receivers.push(receiver);
    }
    receivers.sort();
    assert_eq!(receivers, vec![0, 1, 2]);
    assert_eq!(msgs[3].0, UserId(10));
    assert_eq!(msgs[3].1, "All messages have been sent successfully!");
    assert!(r.get_game(&g).unwrap().is_none());
}

#[test]
fn run_with_no_players_tells_only_the_admin() {
    let mut r = fresh_runner();
    r.new_user(UserId(5), "solo".to_string()).unwrap();
    let g = r.new_game(UserId(5), "Empty".to_string()).unwrap();
    let msgs = r.run_game(g).unwrap();
    assert_eq!(msgs.len(), 1);
    assert_eq!(msgs[0].0, UserId(5));
}

#[test]
fn run_strips_pending_users_too() {
    let mut r = fresh_runner();
    r.new_user(UserId(1), "a".to_string()).unwrap();
    r.new_user(UserId(2), "b".to_string()).unwrap();
    let g = r.new_game(UserId(1), "G".to_string()).unwrap();
    r.add_user_to_pending(&UserId(2), &g).unwrap();
    let msgs = r.run_game(g).unwrap();
    assert_eq!(msgs.len(), 1);
    let b = r.get_user(&UserId(2)).unwrap().unwrap();
    assert!(b.pending_games.is_empty());
    assert_consistent(&r, &[1, 2], &[g]);
}

#[test]
fn register_twice_is_refused() {
    let mut r = fresh_runner();
    r.new_user(UserId(7), "first".to_string()).unwrap();
    let e = r.new_user(UserId(7), "second".to_string()).unwrap_err();
    match e {
        RunnerError::UserRegistration(e) => {
            assert_eq!(e.id, UserId(7));
            assert_eq!(e.username, "first");
        }
        other => panic!("unexpected error {:?}", other),
    }
    assert_eq!(r.get_user(&UserId(7)).unwrap().unwrap().username, "first");
}

#[test]
fn change_username_of_unknown_user_fails() {
    let mut r = fresh_runner();
    let e = r.change_username(&UserId(3), "x".to_string()).unwrap_err();
    assert!(matches!(e, RunnerError::UserDoesNotExist(ref e) if e.id == UserId(3)));
    r.new_user(UserId(3), "old".to_string()).unwrap();
    r.change_username(&UserId(3), "new".to_string()).unwrap();
    assert_eq!(r.get_user(&UserId(3)).unwrap().unwrap().username, "new");
}

#[test]
fn create_game_for_unknown_admin_fails() {
    let mut r = fresh_runner();
    let e = r.new_game(UserId(9), "x".to_string()).unwrap_err();
    assert!(matches!(e, RunnerError::UserDoesNotExist(ref e) if e.id == UserId(9)));
}

#[test]
fn created_ids_are_fresh() {
    let mut r = fresh_runner();
    r.new_user(UserId(1), "a".to_string()).unwrap();
    let mut seen: Vec<GameId> = Vec::new();
    for k in 0..20 {
        let g = r.new_game(UserId(1), format!("game {k}")).unwrap();
        assert!(!seen.contains(&g));
        seen.push(g);
    }
    let a = r.get_user(&UserId(1)).unwrap().unwrap();
    assert_eq!(a.admin_games, seen);
}

#[test]
fn join_errors() {
    let mut r = fresh_runner();
    r.new_user(UserId(1), "a".to_string()).unwrap();
    let missing = GameId(12345);
    let e = r.add_user_to_pending(&UserId(1), &missing).unwrap_err();
    assert!(matches!(e, RunnerError::GameDoesNotExist(ref e) if e.id == missing));
    let g = r.new_game(UserId(1), "G".to_string()).unwrap();
    let e = r.add_user_to_pending(&UserId(2), &g).unwrap_err();
    assert!(matches!(e, RunnerError::UserDoesNotExist(ref e) if e.id == UserId(2)));
    r.new_user(UserId(2), "b".to_string()).unwrap();
    r.add_user_to_pending(&UserId(2), &g).unwrap();
    let e = r.add_user_to_pending(&UserId(2), &g).unwrap_err();
    assert!(matches!(e, RunnerError::UserIsAlreadyInGame(ref e) if e.user_id == UserId(2) && e.game_id == g));
    r.promote_user_from_pending_to_active(&UserId(2), &g).unwrap();
    let e = r.add_user_to_pending(&UserId(2), &g).unwrap_err();
    assert!(matches!(e, RunnerError::UserIsAlreadyInGame(_)));
}

#[test]
fn promote_requires_pending() {
    let mut r = fresh_runner();
    r.new_user(UserId(1), "a".to_string()).unwrap();
    r.new_user(UserId(2), "b".to_string()).unwrap();
    let g = r.new_game(UserId(1), "G".to_string()).unwrap();
    let e = r.promote_user_from_pending_to_active(&UserId(2), &g).unwrap_err();
    assert!(matches!(e, RunnerError::UserIsNotInPending(ref e) if e.user_id == UserId(2) && e.game_id == g));
    let e = r.promote_user_from_pending_to_active(&UserId(2), &GameId(1)).unwrap_err();
    assert!(matches!(e, RunnerError::GameDoesNotExist(_)));
    let e = r.promote_user_from_pending_to_active(&UserId(3), &g).unwrap_err();
    assert!(matches!(e, RunnerError::UserDoesNotExist(_)));
}

#[test]
fn run_unknown_game_fails() {
    let mut r = fresh_runner();
    let e = r.run_game(GameId(77)).unwrap_err();
    assert!(matches!(e, RunnerError::GameDoesNotExist(ref e) if e.id == GameId(77)));
}

#[test]
fn withdraw_twice_equals_once() {
    let mut r = fresh_runner();
    r.new_user(UserId(1), "a".to_string()).unwrap();
    r.new_user(UserId(2), "b".to_string()).unwrap();
    let g = r.new_game(UserId(1), "G".to_string()).unwrap();
    r.add_user_to_pending(&UserId(2), &g).unwrap();
    r.promote_user_from_pending_to_active(&UserId(2), &g).unwrap();
    r.remove_user_from_game(&UserId(2), &g).unwrap();
    let user_once = format!("{:?}", r.get_user(&UserId(2)).unwrap());
    let game_once = format!("{:?}", r.get_game(&g).unwrap());
    r.remove_user_from_game(&UserId(2), &g).unwrap();
    assert_eq!(user_once, format!("{:?}", r.get_user(&UserId(2)).unwrap()));
    assert_eq!(game_once, format!("{:?}", r.get_game(&g).unwrap()));
    let b = r.get_user(&UserId(2)).unwrap().unwrap();
    assert!(b.active_games.is_empty() && b.pending_games.is_empty());
}

#[test]
fn withdraw_without_records_is_no_error() {
    let mut r = fresh_runner();
    r.new_user(UserId(1), "a".to_string()).unwrap();
    r.new_user(UserId(2), "b".to_string()).unwrap();
    let g = r.new_game(UserId(1), "G".to_string()).unwrap();
    r.add_user_to_pending(&UserId(2), &g).unwrap();
    r.remove_user_from_game(&UserId(2), &GameId(g.0.wrapping_add(1))).unwrap();
    assert_eq!(r.get_user(&UserId(2)).unwrap().unwrap().pending_games, vec![g]);
    r.remove_user_from_game(&UserId(99), &g).unwrap();
    assert_eq!(r.get_game(&g).unwrap().unwrap().pending_users, vec![UserId(2)]);
    r.remove_user_from_game(&UserId(99), &GameId(g.0.wrapping_add(1))).unwrap();
    assert!(r.get_user(&UserId(99)).unwrap().is_none());
}

#[test]
fn records_stay_consistent_over_a_sequence() {
    let mut r = fresh_runner();
    let users = [1, 2, 3, 4];
    for u in users {
        r.new_user(UserId(u), format!("user {u}")).unwrap();
    }
    let g1 = r.new_game(UserId(1), "one".to_string()).unwrap();
    let g2 = r.new_game(UserId(2), "two".to_string()).unwrap();
    let games = [g1, g2];
    let steps: Vec<(u8, i64, GameId)> = vec![
        (0, 2, g1), (0, 3, g1), (1, 2, g1), (0, 4, g2), (2, 3, g1), (0, 1, g2),
        (1, 1, g2), (0, 3, g1), (2, 2, g1), (1, 4, g2), (0, 2, g2), (2, 4, g2),
    ];
    for (op, u, g) in steps {
        let _ = match op {
            0 => r.add_user_to_pending(&UserId(u), &g),
            1 => r.promote_user_from_pending_to_active(&UserId(u), &g),
            _ => r.remove_user_from_game(&UserId(u), &g),
        };
        assert_consistent(&r, &users, &games);
    }
    r.run_game(g2).unwrap();
    assert_consistent(&r, &users, &games);
}

#[test]
fn steps_decide_from_the_records_read() {
    let user = || User {
        id: UserId(2),
        username: "b".to_string(),
        admin_games: vec![],
        active_games: vec![],
        pending_games: vec![],
    };
    let game = || Game {
        id: GameId(9),
        name: "G".to_string(),
        admin: UserId(1),
        active_users: vec![],
        pending_users: vec![],
    };
    let e = join_step(None, Some(user()), UserId(2), GameId(9)).unwrap_err();
    assert!(matches!(e, RunnerError::GameDoesNotExist(ref e) if e.id == GameId(9)));
    let e = join_step(Some(game()), None, UserId(2), GameId(9)).unwrap_err();
    assert!(matches!(e, RunnerError::UserDoesNotExist(_)));
    let (u, g) = join_step(Some(game()), Some(user()), UserId(2), GameId(9)).unwrap();
    assert_eq!(u.pending_games, vec![GameId(9)]);
    assert_eq!(g.pending_users, vec![UserId(2)]);
    let e = promote_step(Some(game()), Some(user()), UserId(2), GameId(9)).unwrap_err();
    assert!(matches!(e, RunnerError::UserIsNotInPending(_)));
    let (u, g) = promote_step(Some(g), Some(u), UserId(2), GameId(9)).unwrap();
    assert_eq!(u.active_games, vec![GameId(9)]);
    assert!(g.pending_users.is_empty());
    let (u, g) = withdraw_step(Some(g), Some(u), UserId(2), GameId(9));
    assert!(u.unwrap().active_games.is_empty());
    assert!(g.unwrap().active_users.is_empty());
}
