//! The dialogue engine: one state per session, and the handlers that turn a
//! session's next message into repository calls, replies and the next state.
//!
//! The transport recognises commands and keeps each session's state; a handler
//! returns a `Step`, and the transport sends its replies and stores its state.
use crate::errors::{error_message, RunnerError};
use crate::runner::{
    Tables, after_run, created, joined, promoted, registered, renamed, run_messages, withdrawn, Runner,
};
use crate::text::{
    decimal, i64_text, numeral_value, parse_game_id, parse_user_id, signed_decimal, u64_text,
};
use crate::utils::{game_ids, user_ids, Game, GameId, GameView, User, UserId, UserView};
use vstd::prelude::*;

verus! {

/// Where a session stands. `Idle` is where every flow starts and ends.
#[derive(Clone, Copy, PartialEq, Eq, Structural, Debug)]
pub enum State {
    Idle,
    Register { state: RegisterState },
    Username { state: UsernameState },
    Create { state: CreateState },
    Run { state: RunState },
    Join { state: JoinState },
    Leave { state: LeaveState },
    Accept { state: AcceptState },
    Remove { state: RemoveState },
    Info { state: InfoState },
}

impl Default for State {
    fn default() -> (r: State)
        ensures
            r == State::Idle,
    {
        State::Idle
    }
}

#[derive(Clone, Copy, PartialEq, Eq, Structural, Debug)]
pub enum RegisterState {
    GetName,
}

#[derive(Clone, Copy, PartialEq, Eq, Structural, Debug)]
pub enum UsernameState {
    GetName,
}

#[derive(Clone, Copy, PartialEq, Eq, Structural, Debug)]
pub enum CreateState {
    GetName,
}

#[derive(Clone, Copy, PartialEq, Eq, Structural, Debug)]
pub enum RunState {
    GetId,
    Confirm { game_id: GameId },
}

#[derive(Clone, Copy, PartialEq, Eq, Structural, Debug)]
pub enum JoinState {
    GetId,
}

#[derive(Clone, Copy, PartialEq, Eq, Structural, Debug)]
pub enum LeaveState {
    GetId,
}

#[derive(Clone, Copy, PartialEq, Eq, Structural, Debug)]
pub enum AcceptState {
    GetGameId,
    GetUserId { game_id: GameId },
}

#[derive(Clone, Copy, PartialEq, Eq, Structural, Debug)]
pub enum RemoveState {
    GetGameId,
    GetUserId { game_id: GameId },
}

#[derive(Clone, Copy, PartialEq, Eq, Structural, Debug)]
pub enum InfoState {
    GetId,
}

/// The commands that the transport recognises in a message.
#[derive(Clone, Copy, PartialEq, Eq, Structural, Debug)]
pub enum Command {
    Start,
    Help,
    Username,
    Create,
    Run,
    Join,
    Leave,
    List,
    Accept,
    Remove,
    Info,
    Cancel,
}

/// What handling one message gives: the session's next state, the messages to
/// send (to the session, or for a run to every player), and the repository
/// error that the replies report, if any.
pub struct Step {
    pub state: State,
    pub replies: Vec<(UserId, String)>,
    pub error: Option<RunnerError>,
}

/// The game id that a message names, if it names one.
pub open spec fn numeral_value_u64(t: Seq<char>) -> Option<u64> {
    if numeral_value(t, false) is Some && numeral_value(t, false)->0 <= u64::MAX {
        Some(numeral_value(t, false)->0 as u64)
    } else {
        None
    }
}

/// The user id that a message names, if it names one.
pub open spec fn numeral_value_i64(t: Seq<char>) -> Option<i64> {
    if numeral_value(t, true) is Some && i64::MIN <= numeral_value(t, true)->0 <= i64::MAX {
        Some(numeral_value(t, true)->0 as i64)
    } else {
        None
    }
}

/// The game that a run flow awaits confirmation for.
pub open spec fn confirming(s: State) -> Option<u64> {
    match s {
        State::Run { state: RunState::Confirm { game_id } } => Some(game_id.0),
        _ => None,
    }
}

/// The id of the game that a confirmation state names.
pub open spec fn confirm_target(s: RunState) -> u64 {
    match s {
        RunState::Confirm { game_id } => game_id.0,
        RunState::GetId => 0,
    }
}

/// What the info flow tells of a game.
pub open spec fn info_text(t: Tables, v: GameView) -> Seq<char> {
    "Here are info about your game:\n\nName: `"@ + v.name + "`\n\nId: `"@ + decimal(v.id as nat)
        + "`\n\nActive users:\n"@ + users_listing(t, v.active_users) + "\nPending users:\n"@
        + users_listing(t, v.pending_users)
}

/// The step's only reply is `text`, sent to the session.
pub open spec fn says(r: Step, session: UserId, text: Seq<char>) -> bool {
    r.replies@.len() == 1 && r.replies@[0].0 == session && r.replies@[0].1@ == text
}

/// A step that carries an error goes back to the idle state and tells the
/// session that error's message, and nothing else.
pub open spec fn reports_error(r: Step, session: UserId) -> bool {
    r.error is Some ==> r.state == State::Idle && says(r, session, error_message(r.error->0))
}

/// The game id that a message's text names, if it has a text naming one.
pub open spec fn named_game(text: Option<String>) -> Option<u64> {
    match text {
        Some(t) => numeral_value_u64(t@),
        None => None,
    }
}

/// The user id that a message's text names, if it has a text naming one.
pub open spec fn named_user(text: Option<String>) -> Option<i64> {
    match text {
        Some(t) => numeral_value_i64(t@),
        None => None,
    }
}

/// The game that a flow's second step is about: the game of an accept or
/// remove flow that waits for a user id.
pub open spec fn flow_game(s: State) -> Option<u64> {
    match s {
        State::Accept { state: AcceptState::GetUserId { game_id } } => Some(game_id.0),
        State::Remove { state: RemoveState::GetUserId { game_id } } => Some(game_id.0),
        _ => None,
    }
}

/// What the administrator of the game `g`, named `name`, is asked before it runs:
/// the phrase to type is `confirm_text(g)`.
pub open spec fn confirm_prompt(name: Seq<char>, g: u64) -> Seq<char> {
    "Please confirm that you're going to run game `"@ + name
        + "`\nThis action is irreversible\nMessages about who to give the gift to will be sent out instantly\n\nTo confirm please type `"@
        + confirm_text(g) + "`\nYou can /cancel"@
}

/// The phrase that confirms running the game `g`.
pub open spec fn confirm_text(g: u64) -> Seq<char> {
    "Yes, I do want to run game "@ + decimal(g as nat)
}

/// The state that a command in the idle state leads to, for the commands whose
/// flow does not depend on the store.
pub open spec fn entry_state(c: Command) -> State {
    match c {
        Command::Username => State::Username { state: UsernameState::GetName },
        Command::Create => State::Create { state: CreateState::GetName },
        Command::Join => State::Join { state: JoinState::GetId },
        Command::Leave => State::Leave { state: LeaveState::GetId },
        Command::Accept => State::Accept { state: AcceptState::GetGameId },
        Command::Remove => State::Remove { state: RemoveState::GetGameId },
        Command::Info => State::Info { state: InfoState::GetId },
        _ => State::Idle,
    }
}

/// What `start_cmd` does: its next state, its replies and its effect on the store.
pub open spec fn start_cmd_outcome(r0: Runner, session: UserId, r: Step) -> bool {
    &&& (reports_error(r, session))
    &&& (r.error matches Some(e) ==> e is Store)
    &&& (r.error is None ==> (r.state == (State::Register { state: RegisterState::GetName }) <==> !r0.state().users.contains_key(session.0)))
    &&& (r.error is None && r0.state().users.contains_key(session.0) ==> says( r, session, "It looks like you're already registered.\nYou can change your username using /username\nUse /help to get more info."@, ))
    &&& (r.error is None && !r0.state().users.contains_key(session.0) ==> says( r, session, "Let's start! How should I call you?"@, ))
    &&& (r.state == State::Idle || r.state == (State::Register { state: RegisterState::GetName }))
    &&& (r.state is Register ==> !r0.state().users.contains_key(session.0))
    &&& (r0.state().users.contains_key(session.0) ==> r.state == State::Idle)
}

/// What `help_cmd` does: its next state, its replies and its effect on the store.
pub open spec fn help_cmd_outcome(session: UserId, r: Step) -> bool {
    &&& (r.error is None)
    &&& (says(r, session, "These commands are supported:\n\n/start — please use this command to register if you haven't!\n/help — display this text.\n/username — changes your username.\n/create — create a new secret santa event.\n/run — run a secret santa game.\n/join — join a secret santa event.\n/leave — leave a secret santa event.\n/list — list all your secret santa events.\n/accept — accept someone to one of your games.\n/remove — remove someone from one of your games.\n/info — get info about one of your games.\n/cancel — cancel operation."@))
    &&& (r.state == State::Idle)
}

/// What `username_cmd` does: its next state, its replies and its effect on the store.
pub open spec fn username_cmd_outcome(session: UserId, r: Step) -> bool {
    &&& (r.error is None)
    &&& (says(r, session, "Please enter a new username.\nYou can /cancel"@))
    &&& (r.state == entry_state(Command::Username))
}

/// What `create_cmd` does: its next state, its replies and its effect on the store.
pub open spec fn create_cmd_outcome(session: UserId, r: Step) -> bool {
    &&& (r.error is None)
    &&& (says(r, session, "Please enter name of the game.\nYou can /cancel"@))
    &&& (r.state == entry_state(Command::Create))
}

/// What `run_cmd` does: its next state, its replies and its effect on the store.
pub open spec fn run_cmd_outcome(r0: Runner, session: UserId, r: Step) -> bool {
    &&& (reports_error(r, session))
    &&& (r.error is None && !r0.state().users.contains_key(session.0) ==> r.state == State::Idle && says( r, session, "It looks like you're not registered. Please register with /start"@, ))
    &&& (r.state == State::Idle || r.state == (State::Run { state: RunState::GetId }))
    &&& (r.state is Run ==> r0.state().users.contains_key(session.0))
    &&& (r.error is None && r0.state().users.contains_key(session.0) ==> r.state is Run && r.replies@.len() == 1 && r.replies@[0].0 == session && r.replies@[0].1@ == "Please enter id of the game you want to run\nYou can /cancel\n\nHere are available options:\n"@ + games_listing(r0.state(), r0.state().users[session.0].admin_games))
    &&& (r.error matches Some(e) ==> e is Store)
}

/// What `join_cmd` does: its next state, its replies and its effect on the store.
pub open spec fn join_cmd_outcome(session: UserId, r: Step) -> bool {
    &&& (r.error is None)
    &&& (says(r, session, "Please enter id of the game you want to join.\nYou can /cancel"@))
    &&& (r.state == entry_state(Command::Join))
}

/// What `leave_cmd` does: its next state, its replies and its effect on the store.
pub open spec fn leave_cmd_outcome(session: UserId, r: Step) -> bool {
    &&& (r.error is None)
    &&& (says(r, session, "Please enter id of the game you want to leave.\nYou can /cancel\nYou will be able to rejoin this game."@))
    &&& (r.state == entry_state(Command::Leave))
}

/// What `accept_cmd` does: its next state, its replies and its effect on the store.
pub open spec fn accept_cmd_outcome(session: UserId, r: Step) -> bool {
    &&& (r.error is None)
    &&& (says(r, session, "Please enter id of the game you want to manage.\nYou can /cancel"@))
    &&& (r.state == entry_state(Command::Accept))
}

/// What `remove_cmd` does: its next state, its replies and its effect on the store.
pub open spec fn remove_cmd_outcome(session: UserId, r: Step) -> bool {
    &&& (r.error is None)
    &&& (says(r, session, "Please enter id of the game you want to manage.\nYou can /cancel"@))
    &&& (r.state == entry_state(Command::Remove))
}

/// What `info_cmd` does: its next state, its replies and its effect on the store.
pub open spec fn info_cmd_outcome(session: UserId, r: Step) -> bool {
    &&& (r.error is None)
    &&& (says(r, session, "Please enter id of the game you want to get info about.\nYou can /cancel"@))
    &&& (r.state == entry_state(Command::Info))
}

/// What `list_cmd` does: its next state, its replies and its effect on the store.
pub open spec fn list_cmd_outcome(r0: Runner, session: UserId, r: Step) -> bool {
    &&& (reports_error(r, session))
    &&& (r.state == State::Idle)
    &&& (r.error is None && r0.state().users.contains_key(session.0) ==> r.replies@.len() == 4 && (forall|i: int| 0 <= i < 4 ==> (#[trigger] r.replies@[i]).0 == session) && r.replies@[0].1@ == "Hi, "@ + r0.state().users[session.0].username + " Here's list of all your games:"@ && r.replies@[1].1@ == games_section_text( r0.state(), r0.state().users[session.0].pending_games, "Here are your pending games:\n\n"@, "There was no pending games found."@, ) && r.replies@[2].1@ == games_section_text( r0.state(), r0.state().users[session.0].active_games, "Here are your active games:\n\n"@, "There was no user active found."@, ) && r.replies@[3].1@ == games_section_text( r0.state(), r0.state().users[session.0].admin_games, "Here are your admin games:\n\n"@, "There was no admin games found."@, ))
    &&& (r.error is None && !r0.state().users.contains_key(session.0) ==> r.replies@.len() == 1 && r.replies@[0].1@ == "It looks like you're not registered. Please register with /start"@)
    &&& (r.error matches Some(e) ==> e is Store)
}

/// What `cancel` does: its next state, its replies and its effect on the store.
pub open spec fn cancel_outcome(state: State, session: UserId, r: Step) -> bool {
    &&& (r.error is None)
    &&& (state is Register ==> says( r, session, "It's not possible to cancel the registration process.."@, ))
    &&& (!(state is Register) ==> says(r, session, "Cancelling the dialogue."@))
    &&& (state is Register ==> r.state == state)
    &&& (!(state is Register) ==> r.state == State::Idle)
}

/// What `invalid_state` does: its next state, its replies and its effect on the store.
pub open spec fn invalid_state_outcome(session: UserId, r: Step) -> bool {
    &&& (r.error is None)
    &&& (says(r, session, "Unable to handle the message. Type /help to see the usage."@))
    &&& (r.state == State::Idle)
}

/// What `register` does: its next state, its replies and its effect on the store.
pub open spec fn register_outcome(r0: Runner, r1: Runner, session: UserId, text: Option<String>, r: Step) -> bool {
    &&& (reports_error(r, session))
    &&& (text is None ==> says(r, session, "Please use /help"@))
    &&& (text is Some && r.error is None ==> r.replies@.len() == 1 && r.replies@[0].0 == session && r.replies@[0].1@ == "Thanks for completing the registration, "@ + text->0@ + ".\nYou can change your username using /username\nUse /help to get more info."@)
    &&& (r.state == State::Idle)
    &&& (text is None ==> r1 == r0 && r.error is None)
    &&& (text is Some && r.error is None ==> !r0.state().users.contains_key(session.0) && r1.state() == registered(r0.state(), session.0, text->0@))
    &&& (r.error matches Some(e) ==> (e is UserRegistration && r1 == r0) || e is Store)
}

/// What `username` does: its next state, its replies and its effect on the store.
pub open spec fn username_outcome(r0: Runner, r1: Runner, session: UserId, text: Option<String>, r: Step) -> bool {
    &&& (reports_error(r, session))
    &&& (text is None ==> says(r, session, "Please use /help"@))
    &&& (text is Some && r.error is None ==> r.replies@.len() == 1 && r.replies@[0].0 == session && r.replies@[0].1@ == "You've changed your username to "@ + text->0@ + "."@)
    &&& (r.state == State::Idle)
    &&& (text is None ==> r1 == r0 && r.error is None)
    &&& (text is Some && r.error is None ==> r0.state().users.contains_key(session.0) && r1.state() == renamed(r0.state(), session.0, text->0@))
    &&& (r.error matches Some(e) ==> (e is UserDoesNotExist && r1 == r0) || e is Store)
}

/// What `create` does: its next state, its replies and its effect on the store.
pub open spec fn create_outcome(r0: Runner, r1: Runner, session: UserId, text: Option<String>, r: Step) -> bool {
    &&& (reports_error(r, session))
    &&& (text is None ==> says(r, session, "Please use /help"@))
    &&& (text is Some && r.error is None ==> exists|g: u64| !r0.state().games.contains_key(g) && #[trigger] r1.state() == created(r0.state(), session.0, g, text->0@) && r.replies@.len() == 2 && r.replies@[0].1@ == "You've created game named "@ + text->0@ + " with game id `"@ + decimal(g as nat) + "`"@ && r.replies@[1].1@ == "To join game "@ + text->0@ + " you have to use /join after registration and use `"@ + decimal(g as nat) + "`\\."@)
    &&& (r.state == State::Idle)
    &&& (text is None ==> r1 == r0 && r.error is None)
    &&& (r.error matches Some(e) ==> (e is UserDoesNotExist && r1 == r0) || e is Store)
}

/// What `run` does: its next state, its replies and its effect on the store.
pub open spec fn run_outcome(r0: Runner, r1: Runner, session: UserId, state: RunState, text: Option<String>, r: Step) -> bool {
    &&& (reports_error(r, session))
    &&& (text is None ==> r.error is None && says(r, session, "Please use /help"@))
    &&& (state is GetId && named_game(text) is None ==> r.error is None && r.state == State::Idle && says(r, session, "Please use /help"@) && r1 == r0)
    &&& (state is GetId && named_game(text) is Some && r.error is None ==> (r.state == (State::Run { state: RunState::Confirm { game_id: GameId(named_game(text)->0) }, }) <==> (r0.state().games.contains_key(named_game(text)->0) && r0.state().games[named_game(text)->0].admin == session.0)))
    &&& (state is GetId && named_game(text) is Some && r.error is None && !r0.state().games.contains_key(named_game(text)->0) ==> r.state == State::Idle && says( r, session, "It looks like there's no such game"@, ))
    &&& (state is GetId && named_game(text) is Some && r.error is None && r0.state().games.contains_key(named_game(text)->0) && r0.state().games[named_game( text, )->0].admin != session.0 ==> r.state == State::Idle && says( r, session, "It looks like you're not admin of this game"@, ))
    &&& (state is Confirm && text is Some && text->0@ != confirm_text(confirm_target(state)) ==> says( r, session, "Text doesn't match confirnation statement.\n Please retry or use /cancel"@, ))
    &&& (text is None ==> r1 == r0 && r.state == State::Idle)
    &&& (state is GetId ==> r1 == r0)
    &&& (state is GetId ==> r.state == State::Idle || r.state is Run)
    &&& (state is GetId && confirming(r.state) is Some ==> r0.state().games.contains_key( confirming(r.state)->0, ) && r0.state().games[confirming(r.state)->0].admin == session.0)
    &&& (state is Confirm && text is None ==> r.state == State::Idle && r1 == r0)
    &&& (state is Confirm && text is Some && text->0@ != confirm_text(confirm_target(state)) ==> r.state == (State::Run { state }) && r1 == r0 && r.error is None)
    &&& (state is Confirm && text is Some && text->0@ == confirm_text(confirm_target(state)) ==> r.state == State::Idle)
    &&& (state is Confirm && text is Some && text->0@ == confirm_text(confirm_target(state)) && r.error is None ==> r1.state() == after_run( r0.state(), confirm_target(state), ) && r.replies@.len() >= 1 && run_messages( r0.state(), confirm_target(state), r.replies@.drop_first(), ))
    &&& (r.error matches Some(e) ==> e is GameDoesNotExist || e is UserDoesNotExist || e is Store)
    &&& (r.error matches Some(e) && !(e is Store) ==> r1 == r0)
    &&& (state is GetId && named_game(text) is Some && r.error is None && r.state is Run ==> says(r, session, confirm_prompt(r0.state().games[named_game(text)->0].name, named_game(text)->0)))
}

/// What `join` does: its next state, its replies and its effect on the store.
pub open spec fn join_outcome(r0: Runner, r1: Runner, session: UserId, text: Option<String>, r: Step) -> bool {
    &&& (reports_error(r, session))
    &&& (named_game(text) is None ==> r.error is None && says(r, session, "Please use /help"@) && r1 == r0)
    &&& (named_game(text) is Some && r.error is None ==> says(r, session, "You're now in the waiting list to this game.\nPlease wait until game administrator confirms you.\nYou can /leave to leave game and /list to list all your games."@))
    &&& (text is None ==> r1 == r0)
    &&& (r.state == State::Idle)
    &&& (r.error is None && r1.state() != r0.state() ==> exists|g: u64| #[trigger] r1.state() == joined(r0.state(), session.0, g))
    &&& (text is Some && r.error is None && numeral_value_u64(text->0@) is Some ==> r1.state() == joined( r0.state(), session.0, numeral_value_u64(text->0@)->0, ))
    &&& (r.error is None && (text is None || numeral_value_u64(text->0@) is None) ==> r1 == r0)
    &&& (r.error matches Some(e) && !(e is Store) ==> r1 == r0)
}

/// What `leave` does: its next state, its replies and its effect on the store.
pub open spec fn leave_outcome(r0: Runner, r1: Runner, session: UserId, text: Option<String>, r: Step) -> bool {
    &&& (reports_error(r, session))
    &&& (named_game(text) is None ==> r.error is None && says(r, session, "Please use /help"@) && r1 == r0)
    &&& (named_game(text) is Some && r.error is None ==> says(r, session, "You've successfully left this game."@))
    &&& (text is None ==> r1 == r0)
    &&& (r.state == State::Idle)
    &&& (text is Some && r.error is None && numeral_value_u64(text->0@) is Some ==> r1.state() == withdrawn( r0.state(), session.0, numeral_value_u64(text->0@)->0, ))
    &&& (r.error is None && (text is None || numeral_value_u64(text->0@) is None) ==> r1 == r0)
    &&& (r.error matches Some(e) && !(e is Store) ==> r1 == r0)
}

/// What `accept` does: its next state, its replies and its effect on the store.
pub open spec fn accept_outcome(r0: Runner, r1: Runner, session: UserId, state: AcceptState, text: Option<String>, r: Step) -> bool {
    &&& (reports_error(r, session))
    &&& (state is GetGameId && named_game(text) is None ==> r.error is None && r.state == State::Idle && says(r, session, "Please use /help"@))
    &&& (state is GetGameId && named_game(text) is Some && r.error is None ==> (r.state == (State::Accept { state: AcceptState::GetUserId { game_id: GameId(named_game(text)->0) }, }) <==> r0.state().games.contains_key(named_game(text)->0)))
    &&& (state is GetGameId && named_game(text) is Some && r.error is None && !r0.state().games.contains_key(named_game(text)->0) ==> says(r, session, "It looks like there's no such game"@))
    &&& (state is GetUserId && named_user(text) is None ==> r.error is None && says(r, session, "Please use /help"@) && r1 == r0)
    &&& (state is GetUserId && named_user(text) is Some && r.error is None ==> says(r, session, "You've accepted this user to the game."@))
    &&& (state is GetGameId && r.error is None && r.state is Accept ==> text is Some && numeral_value_u64(text->0@) is Some && r.replies@.len() == 2 && r.replies@[0].1@ == "Here are all pendling users:\n"@ + users_listing( r0.state(), r0.state().games[numeral_value_u64(text->0@)->0].pending_users, ))
    &&& (text is None ==> r1 == r0 && r.state == State::Idle)
    &&& (state is GetGameId ==> r1 == r0)
    &&& (state is GetGameId ==> r.state == State::Idle || (text is Some && numeral_value_u64( text->0@, ) is Some && r0.state().games.contains_key(numeral_value_u64(text->0@)->0) && r.state == (State::Accept { state: AcceptState::GetUserId { game_id: GameId(numeral_value_u64(text->0@)->0) }, })))
    &&& (state is GetUserId ==> r.state == State::Idle)
    &&& (state is GetUserId && text is Some && r.error is None && numeral_value_i64(text->0@) is Some ==> r1.state() == promoted( r0.state(), numeral_value_i64(text->0@)->0, state->game_id.0, ))
    &&& (state is GetUserId && r.error is None && (text is None || numeral_value_i64(text->0@) is None) ==> r1 == r0)
    &&& (r.error matches Some(e) && !(e is Store) ==> r1 == r0)
}

/// What `remove` does: its next state, its replies and its effect on the store.
pub open spec fn remove_outcome(r0: Runner, r1: Runner, session: UserId, state: RemoveState, text: Option<String>, r: Step) -> bool {
    &&& (reports_error(r, session))
    &&& (state is GetGameId && named_game(text) is None ==> r.error is None && r.state == State::Idle && says(r, session, "Please use /help"@))
    &&& (state is GetGameId && named_game(text) is Some && r.error is None ==> (r.state == (State::Remove { state: RemoveState::GetUserId { game_id: GameId(named_game(text)->0) }, }) <==> r0.state().games.contains_key(named_game(text)->0)))
    &&& (state is GetGameId && named_game(text) is Some && r.error is None && !r0.state().games.contains_key(named_game(text)->0) ==> says(r, session, "It looks like there's no such game"@))
    &&& (state is GetUserId && named_user(text) is None ==> r.error is None && says(r, session, "Please use /help"@) && r1 == r0)
    &&& (state is GetUserId && named_user(text) is Some && r.error is None ==> says(r, session, "You've removed this user from the game."@))
    &&& (state is GetGameId && r.error is None && r.state is Remove ==> text is Some && numeral_value_u64(text->0@) is Some && r.replies@.len() == 2 && r.replies@[0].1@ == "Here are all users:\n\nPending users:\n\n"@ + users_listing( r0.state(), r0.state().games[numeral_value_u64(text->0@)->0].pending_users, ) + "Active users:\n\n"@ + users_listing( r0.state(), r0.state().games[numeral_value_u64(text->0@)->0].active_users, ))
    &&& (text is None ==> r1 == r0 && r.state == State::Idle)
    &&& (state is GetGameId ==> r1 == r0)
    &&& (state is GetGameId ==> r.state == State::Idle || (text is Some && numeral_value_u64( text->0@, ) is Some && r0.state().games.contains_key(numeral_value_u64(text->0@)->0) && r.state == (State::Remove { state: RemoveState::GetUserId { game_id: GameId(numeral_value_u64(text->0@)->0) }, })))
    &&& (state is GetUserId ==> r.state == State::Idle)
    &&& (state is GetUserId && text is Some && r.error is None && numeral_value_i64(text->0@) is Some ==> r1.state() == withdrawn( r0.state(), numeral_value_i64(text->0@)->0, state->game_id.0, ))
    &&& (state is GetUserId && r.error is None && (text is None || numeral_value_i64(text->0@) is None) ==> r1 == r0)
    &&& (r.error matches Some(e) && !(e is Store) ==> r1 == r0)
}

/// What `info` does: its next state, its replies and its effect on the store.
pub open spec fn info_outcome(r0: Runner, session: UserId, text: Option<String>, r: Step) -> bool {
    &&& (reports_error(r, session))
    &&& (named_game(text) is None ==> r.error is None && says(r, session, "Please use /help"@))
    &&& (named_game(text) is Some && r.error is None && !r0.state().games.contains_key( named_game(text)->0, ) ==> says(r, session, "It looks like there's no such game"@))
    &&& (r.state == State::Idle)
    &&& (r.error is None && text is Some && numeral_value_u64(text->0@) is Some && r0.state().games.contains_key(numeral_value_u64(text->0@)->0) ==> r.replies@.len() == 1 && r.replies@[0].0 == session && r.replies@[0].1@ == info_text( r0.state(), r0.state().games[numeral_value_u64(text->0@)->0], ))
    &&& (r.error matches Some(e) ==> e is Store)
}

/// The step of a run flow that a state is in.
pub open spec fn run_step_of(s: State) -> RunState {
    match s {
        State::Run { state } => state,
        _ => RunState::GetId,
    }
}

/// The step of an accept flow that a state is in.
pub open spec fn accept_step_of(s: State) -> AcceptState {
    match s {
        State::Accept { state } => state,
        _ => AcceptState::GetGameId,
    }
}

/// The step of a remove flow that a state is in.
pub open spec fn remove_step_of(s: State) -> RemoveState {
    match s {
        State::Remove { state } => state,
        _ => RemoveState::GetGameId,
    }
}

fn one(session: UserId, text: &str) -> (r: Vec<(UserId, String)>)
    ensures
        r@.len() == 1,
        r@[0].0 == session,
        r@[0].1@ == text@,
{
    let mut r: Vec<(UserId, String)> = Vec::new();
    r.push((session, text.to_owned()));
    r
}

fn say(state: State, session: UserId, text: &str) -> (r: Step)
    ensures
        says(r, session, text@),
        r.state == state,
        r.error is None,
        r.replies@.len() == 1,
        r.replies@[0].0 == session,
        r.replies@[0].1@ == text@,
{
    Step { state, replies: one(session, text), error: None }
}

/// Reports `e` and goes back to the idle state.
fn fail(session: UserId, e: RunnerError) -> (r: Step)
    ensures
        says(r, session, error_message(e)),
        reports_error(r, session),
        r.state == State::Idle,
        r.error == Some(e),
        r.replies@.len() == 1,
{
    let mut replies: Vec<(UserId, String)> = Vec::new();
    replies.push((session, e.message()));
    Step { state: State::Idle, replies, error: Some(e) }
}

/// The records of the users of `ids` in `t`, in order, `None` for those without one.
pub open spec fn user_records(t: Tables, ids: Seq<i64>) -> Seq<Option<UserView>> {
    Seq::new(
        ids.len(),
        |i: int|
            if t.users.contains_key(ids[i]) {
                Some(t.users[ids[i]])
            } else {
                None
            },
    )
}

/// The records of the games of `ids` in `t`, in order, `None` for those without one.
pub open spec fn game_records(t: Tables, ids: Seq<u64>) -> Seq<Option<GameView>> {
    Seq::new(
        ids.len(),
        |i: int|
            if t.games.contains_key(ids[i]) {
                Some(t.games[ids[i]])
            } else {
                None
            },
    )
}

pub open spec fn user_views(s: Seq<Option<User>>) -> Seq<Option<UserView>> {
    s.map_values(
        |o: Option<User>|
            match o {
                Some(u) => Some(u@),
                None => None,
            },
    )
}

pub open spec fn game_views(s: Seq<Option<Game>>) -> Seq<Option<GameView>> {
    s.map_values(
        |o: Option<Game>|
            match o {
                Some(g) => Some(g@),
                None => None,
            },
    )
}

/// A line for each record, in order, and nothing for a missing one.
pub open spec fn user_lines(s: Seq<Option<UserView>>) -> Seq<char>
    decreases s.len(),
{
    if s.len() == 0 {
        Seq::empty()
    } else {
        user_lines(s.drop_last()) + match s.last() {
            Some(v) => user_line_text(v),
            None => Seq::empty(),
        }
    }
}

/// A line for each record, each followed by an empty line, and nothing for a
/// missing one.
pub open spec fn game_lines(s: Seq<Option<GameView>>) -> Seq<char>
    decreases s.len(),
{
    if s.len() == 0 {
        Seq::empty()
    } else {
        game_lines(s.drop_last()) + match s.last() {
            Some(v) => game_line_text(v) + "\n"@,
            None => Seq::empty(),
        }
    }
}

/// The lines of the users of `ids` that have a record in `t`, in order.
pub open spec fn users_listing(t: Tables, ids: Seq<i64>) -> Seq<char> {
    user_lines(user_records(t, ids))
}

/// The lines of the games of `ids` that have a record in `t`, in order.
pub open spec fn games_listing(t: Tables, ids: Seq<u64>) -> Seq<char> {
    game_lines(game_records(t, ids))
}

/// A titled listing of game records, or `none` where there are none.
pub open spec fn section_text(s: Seq<Option<GameView>>, title: Seq<char>, none: Seq<char>) -> Seq<
    char,
> {
    if s.len() == 0 {
        none
    } else {
        title + game_lines(s)
    }
}

/// A titled listing of the games of `ids`, or `none` where there are no ids.
pub open spec fn games_section_text(t: Tables, ids: Seq<u64>, title: Seq<char>, none: Seq<char>) -> Seq<
    char,
> {
    section_text(game_records(t, ids), title, none)
}

/// A user as a line of a listing.
pub open spec fn user_line_text(v: UserView) -> Seq<char> {
    "Name: `"@ + v.username + "`\n Id: `"@ + signed_decimal(v.id as int) + "`\n\n"@
}

/// A game as a line of a listing.
pub open spec fn game_line_text(v: GameView) -> Seq<char> {
    "Name: `"@ + v.name + "`\n Id: `"@ + decimal(v.id as nat) + "`\n\n"@
}

fn user_line(user: &User) -> (r: String)
    ensures
        r@ == user_line_text(user@),
{
    let mut m = "Name: `".to_owned();
    m.append(user.username.as_str());
    m.append("`\n Id: `");
    let id = i64_text(user.id.0);
    m.append(id.as_str());
    m.append("`\n\n");
    m
}

fn game_line(game: &Game) -> (r: String)
    ensures
        r@ == game_line_text(game@),
{
    let mut m = "Name: `".to_owned();
    m.append(game.name.as_str());
    m.append("`\n Id: `");
    let id = u64_text(game.id.0);
    m.append(id.as_str());
    m.append("`\n\n");
    m
}

/// The records of the users of `ids`, as read.
fn read_users(runner: &Runner, ids: &Vec<UserId>) -> (r: Result<Vec<Option<User>>, RunnerError>)
    ensures
        r matches Ok(v) ==> user_views(v@) == user_records(runner.state(), user_ids(ids@)),
        r matches Err(e) ==> e is Store,
{
    let mut v: Vec<Option<User>> = Vec::new();
    let mut i: usize = 0;
    while i < ids.len()
        invariant
            i <= ids.len(),
            v@.len() == i,
            forall|j: int|
                0 <= j < i ==> ((#[trigger] v@[j]) is Some <==> runner.state().users.contains_key(
                    ids@[j].0,
                )) && (v@[j] is Some ==> v@[j]->0@ == runner.state().users[ids@[j].0]),
        decreases ids.len() - i,
    {
        match runner.get_user(&ids[i]) {
            Ok(o) => v.push(o),
            Err(e) => return Err(e),
        }
        i = i + 1;
    }
    assert forall|j: int| 0 <= j < v@.len() implies #[trigger] user_views(v@)[j] == user_records(
        runner.state(),
        user_ids(ids@),
    )[j] by {
        assert(user_ids(ids@)[j] == ids@[j].0);
    }
    assert(user_views(v@) =~= user_records(runner.state(), user_ids(ids@)));
    Ok(v)
}

/// The records of the games of `ids`, as read.
fn read_games(runner: &Runner, ids: &Vec<GameId>) -> (r: Result<Vec<Option<Game>>, RunnerError>)
    ensures
        r matches Ok(v) ==> game_views(v@) == game_records(runner.state(), game_ids(ids@)),
        r matches Err(e) ==> e is Store,
{
    let mut v: Vec<Option<Game>> = Vec::new();
    let mut i: usize = 0;
    while i < ids.len()
        invariant
            i <= ids.len(),
            v@.len() == i,
            forall|j: int|
                0 <= j < i ==> ((#[trigger] v@[j]) is Some <==> runner.state().games.contains_key(
                    ids@[j].0,
                )) && (v@[j] is Some ==> v@[j]->0@ == runner.state().games[ids@[j].0]),
        decreases ids.len() - i,
    {
        match runner.get_game(&ids[i]) {
            Ok(o) => v.push(o),
            Err(e) => return Err(e),
        }
        i = i + 1;
    }
    assert forall|j: int| 0 <= j < v@.len() implies #[trigger] game_views(v@)[j] == game_records(
        runner.state(),
        game_ids(ids@),
    )[j] by {
        assert(game_ids(ids@)[j] == ids@[j].0);
    }
    assert(game_views(v@) =~= game_records(runner.state(), game_ids(ids@)));
    Ok(v)
}

/// The lines of a listing of user records.
pub fn users_text(records: &Vec<Option<User>>) -> (r: String)
    ensures
        r@ == user_lines(user_views(records@)),
{
    let mut m = String::new();
    let mut i: usize = 0;
    while i < records.len()
        invariant
            i <= records.len(),
            m@ == user_lines(user_views(records@).take(i as int)),
        decreases records.len() - i,
    {
        let ghost done = user_views(records@).take(i as int);
        proof {
            let next = user_views(records@).take(i + 1);
            assert(next.drop_last() =~= done);
            assert(next.last() == user_views(records@)[i as int]);
        }
        match &records[i] {
            Some(user) => {
                let line = user_line(user);
                m.append(line.as_str());
                assert(m@ =~= user_lines(done) + line@);
            },
            None => {
                assert(user_lines(done) + Seq::empty() =~= user_lines(done));
            },
        }
        i = i + 1;
    }
    assert(user_views(records@).take(records@.len() as int) =~= user_views(records@));
    m
}

/// The lines of a listing of game records.
pub fn games_text(records: &Vec<Option<Game>>) -> (r: String)
    ensures
        r@ == game_lines(game_views(records@)),
{
    let mut m = String::new();
    let mut i: usize = 0;
    while i < records.len()
        invariant
            i <= records.len(),
            m@ == game_lines(game_views(records@).take(i as int)),
        decreases records.len() - i,
    {
        let ghost done = game_views(records@).take(i as int);
        proof {
            let next = game_views(records@).take(i + 1);
            assert(next.drop_last() =~= done);
            assert(next.last() == game_views(records@)[i as int]);
        }
        match &records[i] {
            Some(game) => {
                let line = game_line(game);
                m.append(line.as_str());
                m.append("\n");
                assert(m@ =~= game_lines(done) + (line@ + "\n"@));
            },
            None => {
                assert(game_lines(done) + Seq::empty() =~= game_lines(done));
            },
        }
        i = i + 1;
    }
    assert(game_views(records@).take(records@.len() as int) =~= game_views(records@));
    m
}

/// A titled listing of game records, or `none` where there are none.
fn section(records: &Vec<Option<Game>>, title: &str, none: &str) -> (r: String)
    ensures
        r@ == section_text(game_views(records@), title@, none@),
{
    if records.len() == 0 {
        return none.to_owned();
    }
    let mut m = title.to_owned();
    let lines = games_text(records);
    m.append(lines.as_str());
    m
}

/// What `/run` shows an administrator, given the records of their games.
pub fn run_cmd_step(session: UserId, admin_games: &Vec<Option<Game>>) -> (r: Step)
    ensures
        r.state == (State::Run { state: RunState::GetId }),
        r.error is None,
        says(
            r,
            session,
            "Please enter id of the game you want to run\nYou can /cancel\n\nHere are available options:\n"@
                + game_lines(game_views(admin_games@)),
        ),
{
    let mut m =
        "Please enter id of the game you want to run\nYou can /cancel\n\nHere are available options:\n".to_owned();
    let lines = games_text(admin_games);
    m.append(lines.as_str());
    let mut replies: Vec<(UserId, String)> = Vec::new();
    replies.push((session, m));
    Step { state: State::Run { state: RunState::GetId }, replies, error: None }
}

/// What `/list` shows a user, given their record and those of their pending,
/// active and administered games.
pub fn list_step(
    session: UserId,
    user: &User,
    pending: &Vec<Option<Game>>,
    active: &Vec<Option<Game>>,
    admin: &Vec<Option<Game>>,
) -> (r: Step)
    ensures
        r.state == State::Idle,
        r.error is None,
        r.replies@.len() == 4,
        forall|i: int| 0 <= i < 4 ==> (#[trigger] r.replies@[i]).0 == session,
        r.replies@[0].1@ == "Hi, "@ + user@.username + " Here's list of all your games:"@,
        r.replies@[1].1@ == section_text(
            game_views(pending@),
            "Here are your pending games:\n\n"@,
            "There was no pending games found."@,
        ),
        r.replies@[2].1@ == section_text(
            game_views(active@),
            "Here are your active games:\n\n"@,
            "There was no user active found."@,
        ),
        r.replies@[3].1@ == section_text(
            game_views(admin@),
            "Here are your admin games:\n\n"@,
            "There was no admin games found."@,
        ),
{
    let mut greeting = "Hi, ".to_owned();
    greeting.append(user.username.as_str());
    greeting.append(" Here's list of all your games:");
    let p = section(pending, "Here are your pending games:\n\n", "There was no pending games found.");
    let a = section(active, "Here are your active games:\n\n", "There was no user active found.");
    let d = section(admin, "Here are your admin games:\n\n", "There was no admin games found.");
    let mut replies: Vec<(UserId, String)> = Vec::new();
    replies.push((session, greeting));
    replies.push((session, p));
    replies.push((session, a));
    replies.push((session, d));
    Step { state: State::Idle, replies, error: None }
}

/// What the info flow shows of `game`, given the records of its active and
/// pending users.
pub fn info_step(
    session: UserId,
    game: &Game,
    active: &Vec<Option<User>>,
    pending: &Vec<Option<User>>,
) -> (r: Step)
    ensures
        r.state == State::Idle,
        r.error is None,
        says(
            r,
            session,
            "Here are info about your game:\n\nName: `"@ + game@.name + "`\n\nId: `"@ + decimal(
                game.id.0 as nat,
            ) + "`\n\nActive users:\n"@ + user_lines(user_views(active@)) + "\nPending users:\n"@
                + user_lines(user_views(pending@)),
        ),
{
    let mut m = "Here are info about your game:\n\nName: `".to_owned();
    m.append(game.name.as_str());
    m.append("`\n\nId: `");
    let digits = u64_text(game.id.0);
    m.append(digits.as_str());
    m.append("`\n\nActive users:\n");
    let a = users_text(active);
    m.append(a.as_str());
    m.append("\nPending users:\n");
    let p = users_text(pending);
    m.append(p.as_str());
    let mut replies: Vec<(UserId, String)> = Vec::new();
    replies.push((session, m));
    Step { state: State::Idle, replies, error: None }
}

/// What the accept flow shows of `game`, given the records of its pending users.
pub fn accept_listing_step(session: UserId, game: &Game, pending: &Vec<Option<User>>) -> (r: Step)
    ensures
        r.state == (State::Accept { state: AcceptState::GetUserId { game_id: game.id } }),
        r.error is None,
        r.replies@.len() == 2,
        r.replies@[0].0 == session && r.replies@[1].0 == session,
        r.replies@[0].1@ == "Here are all pendling users:\n"@ + user_lines(user_views(pending@)),
        r.replies@[1].1@ == "Please send id of the user to accept."@,
{
    let mut m = "Here are all pendling users:\n".to_owned();
    let p = users_text(pending);
    m.append(p.as_str());
    let mut replies: Vec<(UserId, String)> = Vec::new();
    replies.push((session, m));
    replies.push((session, "Please send id of the user to accept.".to_owned()));
    Step {
        state: State::Accept { state: AcceptState::GetUserId { game_id: game.id } },
        replies,
        error: None,
    }
}

/// What the remove flow shows of `game`, given the records of its pending and
/// active users.
pub fn remove_listing_step(
    session: UserId,
    game: &Game,
    pending: &Vec<Option<User>>,
    active: &Vec<Option<User>>,
) -> (r: Step)
    ensures
        r.state == (State::Remove { state: RemoveState::GetUserId { game_id: game.id } }),
        r.error is None,
        r.replies@.len() == 2,
        r.replies@[0].0 == session && r.replies@[1].0 == session,
        r.replies@[0].1@ == "Here are all users:\n\nPending users:\n\n"@ + user_lines(
            user_views(pending@),
        ) + "Active users:\n\n"@ + user_lines(user_views(active@)),
        r.replies@[1].1@ == "Please send id of the user to remove."@,
{
    let mut m = "Here are all users:\n\nPending users:\n\n".to_owned();
    let p = users_text(pending);
    m.append(p.as_str());
    m.append("Active users:\n\n");
    let a = users_text(active);
    m.append(a.as_str());
    let mut replies: Vec<(UserId, String)> = Vec::new();
    replies.push((session, m));
    replies.push((session, "Please send id of the user to remove.".to_owned()));
    Step {
        state: State::Remove { state: RemoveState::GetUserId { game_id: game.id } },
        replies,
        error: None,
    }
}

/// `/start`: asks for a name, unless the session is registered already.
pub fn start_cmd(runner: &Runner, session: UserId) -> (r: Step)
    ensures
        start_cmd_outcome(*runner, session, r),
{
    match runner.get_user(&session) {
        Err(e) => fail(session, e),
        Ok(Some(_)) => say(
            State::Idle,
            session,
            "It looks like you're already registered.\nYou can change your username using /username\nUse /help to get more info.",
        ),
        Ok(None) => say(
            State::Register { state: RegisterState::GetName },
            session,
            "Let's start! How should I call you?",
        ),
    }
}

/// `/help`: the list of commands.
pub fn help_cmd(session: UserId) -> (r: Step)
    ensures
        help_cmd_outcome(session, r),
{
    say(
        State::Idle,
        session,
        "These commands are supported:\n\n/start — please use this command to register if you haven't!\n/help — display this text.\n/username — changes your username.\n/create — create a new secret santa event.\n/run — run a secret santa game.\n/join — join a secret santa event.\n/leave — leave a secret santa event.\n/list — list all your secret santa events.\n/accept — accept someone to one of your games.\n/remove — remove someone from one of your games.\n/info — get info about one of your games.\n/cancel — cancel operation.",
    )
}

/// `/username`: asks for the new name.
pub fn username_cmd(session: UserId) -> (r: Step)
    ensures
        username_cmd_outcome(session, r),
{
    say(
        State::Username { state: UsernameState::GetName },
        session,
        "Please enter a new username.\nYou can /cancel",
    )
}

/// `/create`: asks for the game's name.
pub fn create_cmd(session: UserId) -> (r: Step)
    ensures
        create_cmd_outcome(session, r),
{
    say(
        State::Create { state: CreateState::GetName },
        session,
        "Please enter name of the game.\nYou can /cancel",
    )
}

/// `/run`: lists the games that the session administers and asks which to run.
pub fn run_cmd(runner: &Runner, session: UserId) -> (r: Step)
    ensures
        run_cmd_outcome(*runner, session, r),
{
    match runner.get_user(&session) {
        Err(e) => fail(session, e),
        Ok(None) => say(
            State::Idle,
            session,
            "It looks like you're not registered. Please register with /start",
        ),
        Ok(Some(user)) => match read_games(runner, &user.admin_games) {
            Err(e) => fail(session, e),
            Ok(games) => run_cmd_step(session, &games),
        },
    }
}

/// `/join`: asks for the game's id.
pub fn join_cmd(session: UserId) -> (r: Step)
    ensures
        join_cmd_outcome(session, r),
{
    say(
        State::Join { state: JoinState::GetId },
        session,
        "Please enter id of the game you want to join.\nYou can /cancel",
    )
}

/// `/leave`: asks for the game's id.
pub fn leave_cmd(session: UserId) -> (r: Step)
    ensures
        leave_cmd_outcome(session, r),
{
    say(
        State::Leave { state: LeaveState::GetId },
        session,
        "Please enter id of the game you want to leave.\nYou can /cancel\nYou will be able to rejoin this game.",
    )
}

/// `/accept`: asks for the game's id.
pub fn accept_cmd(session: UserId) -> (r: Step)
    ensures
        accept_cmd_outcome(session, r),
{
    say(
        State::Accept { state: AcceptState::GetGameId },
        session,
        "Please enter id of the game you want to manage.\nYou can /cancel",
    )
}

/// `/remove`: asks for the game's id.
pub fn remove_cmd(session: UserId) -> (r: Step)
    ensures
        remove_cmd_outcome(session, r),
{
    say(
        State::Remove { state: RemoveState::GetGameId },
        session,
        "Please enter id of the game you want to manage.\nYou can /cancel",
    )
}

/// `/info`: asks for the game's id.
pub fn info_cmd(session: UserId) -> (r: Step)
    ensures
        info_cmd_outcome(session, r),
{
    say(
        State::Info { state: InfoState::GetId },
        session,
        "Please enter id of the game you want to get info about.\nYou can /cancel",
    )
}

/// `/list`: the session's pending, active and administered games.
pub fn list_cmd(runner: &Runner, session: UserId) -> (r: Step)
    ensures
        list_cmd_outcome(*runner, session, r),
{
    let user = match runner.get_user(&session) {
        Err(e) => return fail(session, e),
        Ok(None) => return say(
            State::Idle,
            session,
            "It looks like you're not registered. Please register with /start",
        ),
        Ok(Some(u)) => u,
    };
    let pending = match read_games(runner, &user.pending_games) {
        Ok(v) => v,
        Err(e) => return fail(session, e),
    };
    let active = match read_games(runner, &user.active_games) {
        Ok(v) => v,
        Err(e) => return fail(session, e),
    };
    let admin = match read_games(runner, &user.admin_games) {
        Ok(v) => v,
        Err(e) => return fail(session, e),
    };
    list_step(session, &user, &pending, &active, &admin)
}

/// `/cancel`: leaves any flow but registration.
pub fn cancel(state: State, session: UserId) -> (r: Step)
    ensures
        cancel_outcome(state, session, r),
{
    match state {
        State::Register { .. } => say(
            state,
            session,
            "It's not possible to cancel the registration process..",
        ),
        _ => say(State::Idle, session, "Cancelling the dialogue."),
    }
}

/// A message that no state expects.
pub fn invalid_state(session: UserId) -> (r: Step)
    ensures
        invalid_state_outcome(session, r),
{
    say(State::Idle, session, "Unable to handle the message. Type /help to see the usage.")
}

/// The registration flow's name: registers the session under it.
pub fn register(runner: &mut Runner, session: UserId, text: Option<String>) -> (r: Step)
    ensures
        register_outcome(*old(runner), *final(runner), session, text, r),
{
    match text {
        None => say(State::Idle, session, "Please use /help"),
        Some(name) => {
            let mut m = "Thanks for completing the registration, ".to_owned();
            m.append(name.as_str());
            m.append(".\nYou can change your username using /username\nUse /help to get more info.");
            match runner.new_user(session, name) {
                Ok(()) => {
                    let mut replies: Vec<(UserId, String)> = Vec::new();
                    replies.push((session, m));
                    Step { state: State::Idle, replies, error: None }
                },
                Err(e) => fail(session, e),
            }
        },
    }
}

/// The new name of the username flow.
pub fn username(runner: &mut Runner, session: UserId, text: Option<String>) -> (r: Step)
    ensures
        username_outcome(*old(runner), *final(runner), session, text, r),
{
    match text {
        None => say(State::Idle, session, "Please use /help"),
        Some(name) => {
            let mut m = "You've changed your username to ".to_owned();
            m.append(name.as_str());
            m.append(".");
            match runner.change_username(&session, name) {
                Ok(()) => {
                    let mut replies: Vec<(UserId, String)> = Vec::new();
                    replies.push((session, m));
                    Step { state: State::Idle, replies, error: None }
                },
                Err(e) => fail(session, e),
            }
        },
    }
}

/// The game name of the create flow: creates the game and reports its id.
pub fn create(runner: &mut Runner, session: UserId, text: Option<String>) -> (r: Step)
    ensures
        create_outcome(*old(runner), *final(runner), session, text, r),
{
    match text {
        None => say(State::Idle, session, "Please use /help"),
        Some(name) => {
            let ghost nm = name@;
            let mut first = "You've created game named ".to_owned();
            first.append(name.as_str());
            first.append(" with game id `");
            let mut second = "To join game ".to_owned();
            second.append(name.as_str());
            second.append(" you have to use /join after registration and use `");
            match runner.new_game(session, name) {
                Ok(id) => {
                    let digits = u64_text(id.0);
                    first.append(digits.as_str());
                    first.append("`");
                    second.append(digits.as_str());
                    second.append("`\\.");
                    proof {
                        let d = decimal(id.0 as nat);
                        assert(first@ =~= "You've created game named "@ + nm + " with game id `"@ + d
                            + "`"@);
                        assert(second@ =~= "To join game "@ + nm
                            + " you have to use /join after registration and use `"@ + d
                            + "`\\."@);
                    }
                    let mut replies: Vec<(UserId, String)> = Vec::new();
                    replies.push((session, first));
                    replies.push((session, second));
                    Step { state: State::Idle, replies, error: None }
                },
                Err(e) => fail(session, e),
            }
        },
    }
}

/// The run flow: the game's id, then the confirmation phrase. Any other text
/// than the phrase asks again and keeps the state.
pub fn run(runner: &mut Runner, session: UserId, state: RunState, text: Option<String>) -> (r: Step)
    ensures
        run_outcome(*old(runner), *final(runner), session, state, text, r),
{
    match state {
        RunState::GetId => {
            let t = match text {
                None => return say(State::Idle, session, "Please use /help"),
                Some(t) => t,
            };
            let game_id = match parse_game_id(t.as_str()) {
                None => return say(State::Idle, session, "Please use /help"),
                Some(g) => g,
            };
            match runner.get_game(&game_id) {
                Err(e) => fail(session, e),
                Ok(None) => say(State::Idle, session, "It looks like there's no such game"),
                Ok(Some(game)) => {
                    if game.admin.0 == session.0 {
                        let mut m = "Please confirm that you're going to run game `".to_owned();
                        m.append(game.name.as_str());
                        m.append("`\nThis action is irreversible\nMessages about who to give the gift to will be sent out instantly\n\nTo confirm please type `");
                        m.append("Yes, I do want to run game ");
                        let digits = u64_text(game_id.0);
                        m.append(digits.as_str());
                        m.append("`\nYou can /cancel");
                        proof {
                            assert(m@ =~= confirm_prompt(game@.name, game_id.0));
                        }
                        let mut replies: Vec<(UserId, String)> = Vec::new();
                        replies.push((session, m));
                        Step {
                            state: State::Run { state: RunState::Confirm { game_id } },
                            replies,
                            error: None,
                        }
                    } else {
                        say(State::Idle, session, "It looks like you're not admin of this game")
                    }
                },
            }
        },
        RunState::Confirm { game_id } => {
            let t = match text {
                None => return say(State::Idle, session, "Please use /help"),
                Some(t) => t,
            };
            let mut phrase = "Yes, I do want to run game ".to_owned();
            let digits = u64_text(game_id.0);
            phrase.append(digits.as_str());
            if t != phrase {
                return say(
                    State::Run { state },
                    session,
                    "Text doesn't match confirnation statement.\n Please retry or use /cancel",
                );
            }
            match runner.run_game(game_id) {
                Err(e) => fail(session, e),
                Ok(messages) => {
                    let mut replies: Vec<(UserId, String)> = Vec::new();
                    replies.push(
                        (
                            session,
                            "You've successfully ran this game.\nMessages will be sent immediately\nThanks for using this bot!".to_owned(),
                        ),
                    );
                    let mut i: usize = 0;
                    while i < messages.len()
                        invariant
                            i <= messages.len(),
                            replies@.len() == i + 1,
                            forall|j: int| 0 <= j < i ==> replies@[j + 1] == messages@[j],
                        decreases messages.len() - i,
                    {
                        replies.push((messages[i].0, messages[i].1.clone()));
                        i = i + 1;
                    }
                    proof {
                        assert(replies@.drop_first() =~= messages@);
                    }
                    Step { state: State::Idle, replies, error: None }
                },
            }
        },
    }
}

/// The join flow's game id: asks to join that game.
pub fn join(runner: &mut Runner, session: UserId, text: Option<String>) -> (r: Step)
    ensures
        join_outcome(*old(runner), *final(runner), session, text, r),
{
    let t = match text {
        None => return say(State::Idle, session, "Please use /help"),
        Some(t) => t,
    };
    let game_id = match parse_game_id(t.as_str()) {
        None => return say(State::Idle, session, "Please use /help"),
        Some(g) => g,
    };
    match runner.add_user_to_pending(&session, &game_id) {
        Ok(()) => say(
            State::Idle,
            session,
            "You're now in the waiting list to this game.\nPlease wait until game administrator confirms you.\nYou can /leave to leave game and /list to list all your games.",
        ),
        Err(e) => fail(session, e),
    }
}

/// The leave flow's game id: takes the session out of that game.
pub fn leave(runner: &mut Runner, session: UserId, text: Option<String>) -> (r: Step)
    ensures
        leave_outcome(*old(runner), *final(runner), session, text, r),
{
    let t = match text {
        None => return say(State::Idle, session, "Please use /help"),
        Some(t) => t,
    };
    let game_id = match parse_game_id(t.as_str()) {
        None => return say(State::Idle, session, "Please use /help"),
        Some(g) => g,
    };
    match runner.remove_user_from_game(&session, &game_id) {
        Ok(()) => say(State::Idle, session, "You've successfully left this game."),
        Err(e) => fail(session, e),
    }
}

/// The game of a management flow, read from the message.
fn managed_game(runner: &Runner, session: UserId, text: Option<String>) -> (r: Result<Game, Step>)
    ensures
        named_game(text) is None ==> r is Err && r->Err_0.error is None && says(r->Err_0, session, "Please use /help"@),
        named_game(text) is Some && runner.state().games.contains_key(named_game(text)->0) ==> r is Ok
            || r->Err_0.error is Some,
        named_game(text) is Some && !runner.state().games.contains_key(named_game(text)->0) ==> r is Err
            && (r->Err_0.error is None ==> says(r->Err_0, session, "It looks like there's no such game"@)),
        r matches Err(step) ==> reports_error(step, session),
        r matches Ok(g) ==> runner.state().games.contains_key(g.id.0) && runner.state().games[g.id.0]
            == g@ && text is Some && numeral_value_u64(text->0@) == Some(g.id.0),
        r matches Err(step) ==> step.state == State::Idle,
        r matches Err(step) && step.error is None ==> text is None || numeral_value_u64(text->0@) is None
            || !runner.state().games.contains_key(numeral_value_u64(text->0@)->0),
        r matches Err(step) ==> step.error is None || step.error->0 is Store,
{
    let t = match text {
        None => return Err(say(State::Idle, session, "Please use /help")),
        Some(t) => t,
    };
    let game_id = match parse_game_id(t.as_str()) {
        None => return Err(say(State::Idle, session, "Please use /help")),
        Some(g) => g,
    };
    match runner.get_game(&game_id) {
        Err(e) => Err(fail(session, e)),
        Ok(None) => Err(say(State::Idle, session, "It looks like there's no such game")),
        Ok(Some(game)) => Ok(game),
    }
}

/// The accept flow: the game's id, which lists its pending users, then the id
/// of the user to move to its active users.
pub fn accept(runner: &mut Runner, session: UserId, state: AcceptState, text: Option<String>) -> (r:
    Step)
    ensures
        accept_outcome(*old(runner), *final(runner), session, state, text, r),
{
    match state {
        AcceptState::GetGameId => {
            let game = match managed_game(runner, session, text) {
                Ok(g) => g,
                Err(step) => return step,
            };
            match read_users(runner, &game.pending_users) {
                Err(e) => fail(session, e),
                Ok(pending) => accept_listing_step(session, &game, &pending),
            }
        },
        AcceptState::GetUserId { game_id } => {
            let t = match text {
                None => return say(State::Idle, session, "Please use /help"),
                Some(t) => t,
            };
            let user_id = match parse_user_id(t.as_str()) {
                None => return say(State::Idle, session, "Please use /help"),
                Some(u) => u,
            };
            match runner.promote_user_from_pending_to_active(&user_id, &game_id) {
                Ok(()) => say(State::Idle, session, "You've accepted this user to the game."),
                Err(e) => fail(session, e),
            }
        },
    }
}

/// The remove flow: the game's id, which lists its users, then the id of the
/// user to take out of it.
pub fn remove(runner: &mut Runner, session: UserId, state: RemoveState, text: Option<String>) -> (r:
    Step)
    ensures
        remove_outcome(*old(runner), *final(runner), session, state, text, r),
{
    match state {
        RemoveState::GetGameId => {
            let game = match managed_game(runner, session, text) {
                Ok(g) => g,
                Err(step) => return step,
            };
            let pending = match read_users(runner, &game.pending_users) {
                Err(e) => return fail(session, e),
                Ok(v) => v,
            };
            let active = match read_users(runner, &game.active_users) {
                Err(e) => return fail(session, e),
                Ok(v) => v,
            };
            remove_listing_step(session, &game, &pending, &active)
        },
        RemoveState::GetUserId { game_id } => {
            let t = match text {
                None => return say(State::Idle, session, "Please use /help"),
                Some(t) => t,
            };
            let user_id = match parse_user_id(t.as_str()) {
                None => return say(State::Idle, session, "Please use /help"),
                Some(u) => u,
            };
            match runner.remove_user_from_game(&user_id, &game_id) {
                Ok(()) => say(State::Idle, session, "You've removed this user from the game."),
                Err(e) => fail(session, e),
            }
        },
    }
}

/// The info flow's game id: the game's name, id and users.
pub fn info(runner: &Runner, session: UserId, text: Option<String>) -> (r: Step)
    ensures
        info_outcome(*runner, session, text, r),
{
    let game = match managed_game(runner, session, text) {
        Ok(g) => g,
        Err(step) => return step,
    };
    let active = match read_users(runner, &game.active_users) {
        Ok(v) => v,
        Err(e) => return fail(session, e),
    };
    let pending = match read_users(runner, &game.pending_users) {
        Ok(v) => v,
        Err(e) => return fail(session, e),
    };
    info_step(session, &game, &active, &pending)
}

/// Handles one message of `session` in `state`: `command` is the command that
/// the transport recognised in it, if any, and `text` its text, if it has one.
/// In the idle state a command starts its flow; `/cancel` leaves any flow but
/// registration; in any other state the message is that state's input.
pub fn handle(
    runner: &mut Runner,
    session: UserId,
    state: State,
    command: Option<Command>,
    text: Option<String>,
) -> (r: Step)
    ensures
        command == Some(Command::Cancel) ==> cancel_outcome(state, session, r),
        state == State::Idle && command is None ==> invalid_state_outcome(session, r),
        state == State::Idle && command == Some(Command::Start) ==> start_cmd_outcome(*old(runner), session, r),
        state == State::Idle && command == Some(Command::Help) ==> help_cmd_outcome(session, r),
        state == State::Idle && command == Some(Command::Username) ==> username_cmd_outcome(session, r),
        state == State::Idle && command == Some(Command::Create) ==> create_cmd_outcome(session, r),
        state == State::Idle && command == Some(Command::Run) ==> run_cmd_outcome(*old(runner), session, r),
        state == State::Idle && command == Some(Command::Join) ==> join_cmd_outcome(session, r),
        state == State::Idle && command == Some(Command::Leave) ==> leave_cmd_outcome(session, r),
        state == State::Idle && command == Some(Command::List) ==> list_cmd_outcome(*old(runner), session, r),
        state == State::Idle && command == Some(Command::Accept) ==> accept_cmd_outcome(session, r),
        state == State::Idle && command == Some(Command::Remove) ==> remove_cmd_outcome(session, r),
        state == State::Idle && command == Some(Command::Info) ==> info_cmd_outcome(session, r),
        command != Some(Command::Cancel) && state is Register ==> register_outcome(*old(runner), *final(runner), session, text, r),
        command != Some(Command::Cancel) && state is Username ==> username_outcome(*old(runner), *final(runner), session, text, r),
        command != Some(Command::Cancel) && state is Create ==> create_outcome(*old(runner), *final(runner), session, text, r),
        command != Some(Command::Cancel) && state is Run ==> run_outcome(*old(runner), *final(runner), session, run_step_of(state), text, r),
        command != Some(Command::Cancel) && state is Join ==> join_outcome(*old(runner), *final(runner), session, text, r),
        command != Some(Command::Cancel) && state is Leave ==> leave_outcome(*old(runner), *final(runner), session, text, r),
        command != Some(Command::Cancel) && state is Accept ==> accept_outcome(*old(runner), *final(runner), session, accept_step_of(state), text, r),
        command != Some(Command::Cancel) && state is Remove ==> remove_outcome(*old(runner), *final(runner), session, remove_step_of(state), text, r),
        command != Some(Command::Cancel) && state is Info ==> info_outcome(*old(runner), session, text, r) && *final(runner) == *old(runner),
        reports_error(r, session),
        state == State::Idle && command == Some(Command::Start) && r.error is None ==> (r.state == (
        State::Register { state: RegisterState::GetName }) <==> !old(runner).state().users.contains_key(
            session.0,
        )),
        state == State::Idle && command == Some(Command::Run) && r.error is None ==> (r.state == (
        State::Run { state: RunState::GetId }) <==> old(runner).state().users.contains_key(session.0)),
        command != Some(Command::Cancel) && state is Join && named_game(text) is Some && r.error is None
            ==> final(runner).state() == joined(old(runner).state(), session.0, named_game(text)->0),
        command != Some(Command::Cancel) && state is Leave && named_game(text) is Some && r.error is None
            ==> final(runner).state() == withdrawn(old(runner).state(), session.0, named_game(text)->0),
        command != Some(Command::Cancel) && state == (State::Accept { state: AcceptState::GetGameId })
            && named_game(text) is Some && r.error is None ==> (r.state == (State::Accept {
            state: AcceptState::GetUserId { game_id: GameId(named_game(text)->0) },
        }) <==> old(runner).state().games.contains_key(named_game(text)->0)),
        command != Some(Command::Cancel) && state == (State::Remove { state: RemoveState::GetGameId })
            && named_game(text) is Some && r.error is None ==> (r.state == (State::Remove {
            state: RemoveState::GetUserId { game_id: GameId(named_game(text)->0) },
        }) <==> old(runner).state().games.contains_key(named_game(text)->0)),
        command != Some(Command::Cancel) && state is Accept && flow_game(state) is Some && named_user(
            text,
        ) is Some && r.error is None ==> r.state == State::Idle && final(runner).state() == promoted(
            old(runner).state(),
            named_user(text)->0,
            flow_game(state)->0,
        ),
        command != Some(Command::Cancel) && state is Remove && flow_game(state) is Some && named_user(
            text,
        ) is Some && r.error is None ==> r.state == State::Idle && final(runner).state() == withdrawn(
            old(runner).state(),
            named_user(text)->0,
            flow_game(state)->0,
        ),
        command == Some(Command::Cancel) ==> *final(runner) == *old(runner) && (if state is Register {
            r.state == state
        } else {
            r.state == State::Idle
        }),
        state == State::Idle && command != Some(Command::Cancel) ==> *final(runner) == *old(runner),
        state == State::Idle && command is None ==> r.state == State::Idle,
        state == State::Idle && command is Some && command != Some(Command::Cancel) && !(
        command->0 is Start) && !(command->0 is Run) ==> r.state == entry_state(command->0),
        state is Run && command != Some(Command::Cancel) && text is Some
            && confirming(state) is Some && text->0@ != confirm_text(confirming(state)->0)
            ==> r.state == state && *final(runner) == *old(runner),
        !(state == State::Idle) && command != Some(Command::Cancel) && text is None ==> r.state
            == State::Idle && *final(runner) == *old(runner),
        command != Some(Command::Cancel) && (state is Register || state is Username
            || state is Create || state is Join || state is Leave || state is Info) ==> r.state
            == State::Idle,
        command != Some(Command::Cancel) && state == (State::Run {
            state: RunState::Confirm { game_id: GameId(confirming(state)->0) },
        }) && text is Some && text->0@ == confirm_text(confirming(state)->0) && r.error is None
            ==> r.state == State::Idle && final(runner).state() == after_run(
            old(runner).state(),
            confirming(state)->0,
        ),
{
    if command == Some(Command::Cancel) {
        return cancel(state, session);
    }
    match state {
        State::Idle => match command {
            None => invalid_state(session),
            Some(c) => match c {
                Command::Start => start_cmd(runner, session),
                Command::Help => help_cmd(session),
                Command::Username => username_cmd(session),
                Command::Create => create_cmd(session),
                Command::Run => run_cmd(runner, session),
                Command::Join => join_cmd(session),
                Command::Leave => leave_cmd(session),
                Command::List => list_cmd(runner, session),
                Command::Accept => accept_cmd(session),
                Command::Remove => remove_cmd(session),
                Command::Info => info_cmd(session),
                Command::Cancel => cancel(state, session),
            },
        },
        State::Register { .. } => register(runner, session, text),
        State::Username { .. } => username(runner, session, text),
        State::Create { .. } => create(runner, session, text),
        State::Run { state } => run(runner, session, state, text),
        State::Join { .. } => join(runner, session, text),
        State::Leave { .. } => leave(runner, session, text),
        State::Accept { state } => accept(runner, session, state, text),
        State::Remove { state } => remove(runner, session, state, text),
        State::Info { .. } => info(runner, session, text),
    }
}

} // verus!
