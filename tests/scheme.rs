use secret_santa::runner::Runner;
use secret_santa::scheme::{
    handle, AcceptState, Command, CreateState, RegisterState, RunState, State,
};
use secret_santa::scheme::{info_step, list_step};
use secret_santa::utils::{Game, GameId, User, UserId};

fn fresh_runner() -> Runner {
    let db = sled::Config::new().temporary(true).open().unwrap();
    Runner::from_db(db)
}

fn text(s: &str) -> Option<String> {
    Some(s.to_string())
}

/// Registers `id` under `name` through the dialogue.
fn register(r: &mut Runner, id: i64, name: &str) {
    let step = handle(r, UserId(id), State::Idle, Some(Command::Start), text("/start"));
    assert_eq!(step.state, State::Register { state: RegisterState::GetName });
    let step = handle(r, UserId(id), step.state, None, text(name));
    assert_eq!(step.state, State::Idle);
    assert!(step.error.is_none());
}

fn create_game(r: &mut Runner, admin: i64, name: &str) -> GameId {
    let step = handle(r, UserId(admin), State::Idle, Some(Command::Create), text("/create"));
    assert_eq!(step.state, State::Create { state: CreateState::GetName });
    let step = handle(r, UserId(admin), step.state, None, text(name));
    assert_eq!(step.state, State::Idle);
    let user = r.get_user(&UserId(admin)).unwrap().unwrap();
    *user.admin_games.last().unwrap()
}

#[test]
fn confirmation_mismatch_keeps_the_state() {
    let mut r = fresh_runner();
    register(&mut r, 1, "A");
    let g = create_game(&mut r, 1, "Secret");
    let confirm = State::Run { state: RunState::Confirm { game_id: g } };
    let mut state = confirm;
    for attempt in ["yes", "Yes, I do want to run game", "no thanks"] {
        let step = handle(&mut r, UserId(1), state, None, text(attempt));
        assert_eq!(step.state, confirm);
        assert_eq!(
            step.replies[0].1,
            "Text doesn't match confirnation statement.\n Please retry or use /cancel"
        );
        state = step.state;
        assert!(r.get_game(&g).unwrap().is_some());
    }
    let phrase = format!("Yes, I do want to run game {}", g.0);
    let step = handle(&mut r, UserId(1), state, None, Some(phrase));
    assert_eq!(step.state, State::Idle);
    assert!(step.error.is_none());
    assert!(r.get_game(&g).unwrap().is_none());
    assert_eq!(step.replies.len(), 2);
    assert_eq!(step.replies[1].0, UserId(1));
}

#[test]
fn run_flow_checks_the_admin() {
    let mut r = fresh_runner();
    register(&mut r, 1, "A");
    register(&mut r, 2, "B");
    let g = create_game(&mut r, 1, "Secret");
    let step = handle(&mut r, UserId(2), State::Idle, Some(Command::Run), text("/run"));
    assert_eq!(step.state, State::Run { state: RunState::GetId });
    let step = handle(&mut r, UserId(2), step.state, None, Some(g.0.to_string()));
    assert_eq!(step.state, State::Idle);
    assert_eq!(step.replies[0].1, "It looks like you're not admin of this game");
    let step = handle(&mut r, UserId(1), State::Run { state: RunState::GetId }, None, Some(g.0.to_string()));
    assert_eq!(step.state, State::Run { state: RunState::Confirm { game_id: g } });
    let step = handle(&mut r, UserId(1), State::Run { state: RunState::GetId }, None, text("abc"));
    assert_eq!(step.state, State::Idle);
    assert_eq!(step.replies[0].1, "Please use /help");
}

#[test]
fn cancel_leaves_flows_but_registration() {
    let mut r = fresh_runner();
    let reg = State::Register { state: RegisterState::GetName };
    let step = handle(&mut r, UserId(1), reg, Some(Command::Cancel), text("/cancel"));
    assert_eq!(step.state, reg);
    assert_eq!(step.replies.len(), 1);
    assert_eq!(step.replies[0].1, "It's not possible to cancel the registration process..");
    let join = State::Accept { state: AcceptState::GetGameId };
    let step = handle(&mut r, UserId(1), join, Some(Command::Cancel), text("/cancel"));
    assert_eq!(step.state, State::Idle);
    assert_eq!(step.replies[0].1, "Cancelling the dialogue.");
}

#[test]
fn idle_text_is_not_a_command() {
    let mut r = fresh_runner();
    let step = handle(&mut r, UserId(1), State::Idle, None, text("hello"));
    assert_eq!(step.state, State::Idle);
    assert_eq!(
        step.replies[0].1,
        "Unable to handle the message. Type /help to see the usage."
    );
}

#[test]
fn start_when_registered() {
    let mut r = fresh_runner();
    register(&mut r, 4, "D");
    let step = handle(&mut r, UserId(4), State::Idle, Some(Command::Start), text("/start"));
    assert_eq!(step.state, State::Idle);
    assert_eq!(r.get_user(&UserId(4)).unwrap().unwrap().username, "D");
}

#[test]
fn join_accept_leave_through_the_dialogue() {
    let mut r = fresh_runner();
    register(&mut r, 1, "A");
    register(&mut r, 2, "B");
    let g = create_game(&mut r, 1, "Secret");
    let step = handle(&mut r, UserId(2), State::Idle, Some(Command::Join), text("/join"));
    let step = handle(&mut r, UserId(2), step.state, None, Some(g.0.to_string()));
    assert_eq!(step.state, State::Idle);
    assert!(step.error.is_none());
    assert_eq!(r.get_game(&g).unwrap().unwrap().pending_users, vec![UserId(2)]);

    let step = handle(&mut r, UserId(1), State::Idle, Some(Command::Accept), text("/accept"));
    let step = handle(&mut r, UserId(1), step.state, None, Some(g.0.to_string()));
    assert_eq!(step.state, State::Accept { state: AcceptState::GetUserId { game_id: g } });
    assert_eq!(step.replies[0].1, "Here are all pendling users:\nName: `B`\n Id: `2`\n\n");
    let step = handle(&mut r, UserId(1), step.state, None, text("2"));
    assert_eq!(step.state, State::Idle);
    assert_eq!(r.get_game(&g).unwrap().unwrap().active_users, vec![UserId(2)]);

    let step = handle(&mut r, UserId(2), State::Idle, Some(Command::Leave), text("/leave"));
    let step = handle(&mut r, UserId(2), step.state, None, Some(g.0.to_string()));
    assert_eq!(step.state, State::Idle);
    assert!(r.get_game(&g).unwrap().unwrap().active_users.is_empty());
}

#[test]
fn errors_reach_the_session() {
    let mut r = fresh_runner();
    let step = handle(&mut r, UserId(3), State::Idle, Some(Command::Join), text("/join"));
    let step = handle(&mut r, UserId(3), step.state, None, text("99"));
    assert_eq!(step.state, State::Idle);
    assert!(step.error.is_some());
    assert_eq!(step.replies[0].1, "Game with id: 99 does not exist");
}

#[test]
fn created_game_id_is_reported() {
    let mut r = fresh_runner();
    register(&mut r, 1, "A");
    let step = handle(&mut r, UserId(1), State::Idle, Some(Command::Create), text("/create"));
    let step = handle(&mut r, UserId(1), step.state, None, text("Winter"));
    let g = r.get_user(&UserId(1)).unwrap().unwrap().admin_games[0];
    assert_eq!(
        step.replies[0].1,
        format!("You've created game named Winter with game id `{}`", g.0)
    );
}

#[test]
fn default_state_is_idle() {
    assert_eq!(State::default(), State::Idle);
}

#[test]
fn malformed_ids_get_the_usage_hint() {
    let mut r = fresh_runner();
    for state in [
        State::Join { state: secret_santa::scheme::JoinState::GetId },
        State::Leave { state: secret_santa::scheme::LeaveState::GetId },
        State::Info { state: secret_santa::scheme::InfoState::GetId },
        State::Accept { state: AcceptState::GetGameId },
    ] {
        let step = handle(&mut r, UserId(1), state, None, text("not a number"));
        assert_eq!(step.state, State::Idle);
        assert!(step.error.is_none());
        assert_eq!(step.replies.len(), 1);
        assert_eq!(step.replies[0].1, "Please use /help");
    }
}

#[test]
fn accept_for_missing_game_says_so() {
    let mut r = fresh_runner();
    let step = handle(&mut r, UserId(1), State::Accept { state: AcceptState::GetGameId }, None, text("5"));
    assert_eq!(step.state, State::Idle);
    assert_eq!(step.replies[0].1, "It looks like there's no such game");
}

#[test]
fn listing_steps_render_the_records_read() {
    let user = User {
        id: UserId(3),
        username: "Cy".to_string(),
        admin_games: vec![],
        active_games: vec![],
        pending_games: vec![GameId(4)],
    };
    let game = Game {
        id: GameId(4),
        name: "Snow".to_string(),
        admin: UserId(1),
        active_users: vec![],
        pending_users: vec![UserId(3)],
    };
    let step = list_step(UserId(3), &user, &vec![Some(game)], &vec![], &vec![None]);
    assert_eq!(step.state, State::Idle);
    assert_eq!(step.replies.len(), 4);
    assert_eq!(step.replies[0].1, "Hi, Cy Here's list of all your games:");
    assert_eq!(step.replies[1].1, "Here are your pending games:\n\nName: `Snow`\n Id: `4`\n\n\n");
    assert_eq!(step.replies[2].1, "There was no user active found.");
    assert_eq!(step.replies[3].1, "Here are your admin games:\n\n");
    let game = Game {
        id: GameId(4),
        name: "Snow".to_string(),
        admin: UserId(1),
        active_users: vec![],
        pending_users: vec![UserId(3)],
    };
    let cy = User {
        id: UserId(3),
        username: "Cy".to_string(),
        admin_games: vec![],
        active_games: vec![],
        pending_games: vec![GameId(4)],
    };
    let step = info_step(UserId(1), &game, &vec![], &vec![Some(cy)]);
    assert_eq!(
        step.replies[0].1,
        "Here are info about your game:\n\nName: `Snow`\n\nId: `4`\n\nActive users:\n\nPending users:\nName: `Cy`\n Id: `3`\n\n"
    );
}
