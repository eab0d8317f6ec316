//! The ways a repository operation can fail.
use crate::text::{decimal, i64_text, signed_decimal, u64_text};
use crate::utils::{GameId, UserId};
use vstd::prelude::*;

verus! {

/// Registration was asked for an id that already has a record.
#[derive(Debug)]
pub struct UserRegistrationError {
    pub id: UserId,
    pub username: String,
}

/// No user record exists for the id.
#[derive(Debug)]
pub struct UserDoesNotExistError {
    pub id: UserId,
}

/// No game record exists for the id.
#[derive(Debug)]
pub struct GameDoesNotExistError {
    pub id: GameId,
}

/// The game does not list the user among its pending users.
#[derive(Debug)]
pub struct UserIsNotInPendingError {
    pub user_id: UserId,
    pub game_id: GameId,
}

/// The user does not list the game among their pending games.
#[derive(Debug)]
pub struct GameIsNotInPendingError {
    pub user_id: UserId,
    pub game_id: GameId,
}

/// The game already lists the user, as pending or active.
#[derive(Debug)]
pub struct UserIsAlreadyInGameError {
    pub user_id: UserId,
    pub game_id: GameId,
}

/// The user already lists the game, as pending or active.
#[derive(Debug)]
pub struct GameIsAlreadyInUserError {
    pub user_id: UserId,
    pub game_id: GameId,
}

/// A failure of the store itself rather than of the request.
#[derive(Clone, Copy, PartialEq, Eq, Structural, Debug)]
pub enum StoreError {
    /// The database reported an error while reading.
    Io,
    /// The database reported an error while applying a batch of writes. Of the
    /// records it touched, which were written is not known.
    Write,
    /// A stored record is not one that this library writes.
    Corrupt,
    /// Every id drawn for a new game already had a record.
    IdsExhausted,
}

/// Every error that a repository operation returns.
#[derive(Debug)]
pub enum RunnerError {
    UserRegistration(UserRegistrationError),
    UserDoesNotExist(UserDoesNotExistError),
    GameDoesNotExist(GameDoesNotExistError),
    UserIsNotInPending(UserIsNotInPendingError),
    GameIsNotInPending(GameIsNotInPendingError),
    UserIsAlreadyInGame(UserIsAlreadyInGameError),
    GameIsAlreadyInUser(GameIsAlreadyInUserError),
    Store(StoreError),
}

pub open spec fn user_text(id: UserId) -> Seq<char> {
    signed_decimal(id.0 as int)
}

pub open spec fn game_text(id: GameId) -> Seq<char> {
    decimal(id.0 as nat)
}

impl UserRegistrationError {
    pub fn message(&self) -> (r: String)
        ensures
            r@ == "User with id: "@ + user_text(self.id) + " already exists and has username: "@
                + self.username@,
    {
        let mut m = "User with id: ".to_owned();
        m.append(i64_text(self.id.0).as_str());
        m.append(" already exists and has username: ");
        m.append(self.username.as_str());
        m
    }
}

impl UserDoesNotExistError {
    pub fn message(&self) -> (r: String)
        ensures
            r@ == "User with id: "@ + user_text(self.id) + " does not exist"@,
    {
        let mut m = "User with id: ".to_owned();
        m.append(i64_text(self.id.0).as_str());
        m.append(" does not exist");
        m
    }
}

impl GameDoesNotExistError {
    pub fn message(&self) -> (r: String)
        ensures
            r@ == "Game with id: "@ + game_text(self.id) + " does not exist"@,
    {
        let mut m = "Game with id: ".to_owned();
        m.append(u64_text(self.id.0).as_str());
        m.append(" does not exist");
        m
    }
}

impl UserIsNotInPendingError {
    pub fn message(&self) -> (r: String)
        ensures
            r@ == "User with id: "@ + user_text(self.user_id)
                + " is not in pending users of game with id: "@ + game_text(self.game_id),
    {
        let mut m = "User with id: ".to_owned();
        m.append(i64_text(self.user_id.0).as_str());
        m.append(" is not in pending users of game with id: ");
        m.append(u64_text(self.game_id.0).as_str());
        m
    }
}

impl GameIsNotInPendingError {
    pub fn message(&self) -> (r: String)
        ensures
            r@ == "Game with id: "@ + game_text(self.game_id)
                + " is not in pending games of user with id: "@ + user_text(self.user_id),
    {
        let mut m = "Game with id: ".to_owned();
        m.append(u64_text(self.game_id.0).as_str());
        m.append(" is not in pending games of user with id: ");
        m.append(i64_text(self.user_id.0).as_str());
        m
    }
}

impl UserIsAlreadyInGameError {
    pub fn message(&self) -> (r: String)
        ensures
            r@ == "User with id: "@ + user_text(self.user_id) + " is already in game with id: "@
                + game_text(self.game_id),
    {
        let mut m = "User with id: ".to_owned();
        m.append(i64_text(self.user_id.0).as_str());
        m.append(" is already in game with id: ");
        m.append(u64_text(self.game_id.0).as_str());
        m
    }
}

impl GameIsAlreadyInUserError {
    pub fn message(&self) -> (r: String)
        ensures
            r@ == "Game with id: "@ + game_text(self.game_id) + " is already in user with id: "@
                + user_text(self.user_id),
    {
        let mut m = "Game with id: ".to_owned();
        m.append(u64_text(self.game_id.0).as_str());
        m.append(" is already in user with id: ");
        m.append(i64_text(self.user_id.0).as_str());
        m
    }
}

/// What an error says to a user: the message of the error it carries, or, for
/// a failure of the store, a request to try again.
pub open spec fn error_message(e: RunnerError) -> Seq<char> {
    match e {
        RunnerError::UserRegistration(x) => "User with id: "@ + user_text(x.id)
            + " already exists and has username: "@ + x.username@,
        RunnerError::UserDoesNotExist(x) => "User with id: "@ + user_text(x.id) + " does not exist"@,
        RunnerError::GameDoesNotExist(x) => "Game with id: "@ + game_text(x.id) + " does not exist"@,
        RunnerError::UserIsNotInPending(x) => "User with id: "@ + user_text(x.user_id)
            + " is not in pending users of game with id: "@ + game_text(x.game_id),
        RunnerError::GameIsNotInPending(x) => "Game with id: "@ + game_text(x.game_id)
            + " is not in pending games of user with id: "@ + user_text(x.user_id),
        RunnerError::UserIsAlreadyInGame(x) => "User with id: "@ + user_text(x.user_id)
            + " is already in game with id: "@ + game_text(x.game_id),
        RunnerError::GameIsAlreadyInUser(x) => "Game with id: "@ + game_text(x.game_id)
            + " is already in user with id: "@ + user_text(x.user_id),
        RunnerError::Store(_) => "Something went wrong, please try again."@,
    }
}

impl RunnerError {
    /// What the error says to a user.
    pub fn message(&self) -> (r: String)
        ensures
            r@ == error_message(*self),
    {
        match self {
            RunnerError::UserRegistration(e) => e.message(),
            RunnerError::UserDoesNotExist(e) => e.message(),
            RunnerError::GameDoesNotExist(e) => e.message(),
            RunnerError::UserIsNotInPending(e) => e.message(),
            RunnerError::GameIsNotInPending(e) => e.message(),
            RunnerError::UserIsAlreadyInGame(e) => e.message(),
            RunnerError::GameIsAlreadyInUser(e) => e.message(),
            RunnerError::Store(_) => "Something went wrong, please try again.".to_owned(),
        }
    }
}

} // verus!
