use secret_santa::errors::{
    GameDoesNotExistError, GameIsAlreadyInUserError, GameIsNotInPendingError, RunnerError,
    StoreError, UserDoesNotExistError, UserIsAlreadyInGameError, UserIsNotInPendingError,
    UserRegistrationError,
};
use secret_santa::utils::{GameId, UserId};

#[test]
fn error_messages() {
    let e = UserRegistrationError { id: UserId(-4), username: "Ann".to_string() };
    assert_eq!(e.message(), "User with id: -4 already exists and has username: Ann");
    let e = UserDoesNotExistError { id: UserId(12) };
    assert_eq!(e.message(), "User with id: 12 does not exist");
    let e = GameDoesNotExistError { id: GameId(18446744073709551615) };
    assert_eq!(e.message(), "Game with id: 18446744073709551615 does not exist");
    let e = UserIsNotInPendingError { user_id: UserId(1), game_id: GameId(2) };
    assert_eq!(e.message(), "User with id: 1 is not in pending users of game with id: 2");
    let e = GameIsNotInPendingError { user_id: UserId(1), game_id: GameId(2) };
    assert_eq!(e.message(), "Game with id: 2 is not in pending games of user with id: 1");
    let e = UserIsAlreadyInGameError { user_id: UserId(3), game_id: GameId(0) };
    assert_eq!(e.message(), "User with id: 3 is already in game with id: 0");
    let e = GameIsAlreadyInUserError { user_id: UserId(3), game_id: GameId(0) };
    assert_eq!(e.message(), "Game with id: 0 is already in user with id: 3");
    let e = RunnerError::Store(StoreError::Io);
    assert_eq!(e.message(), "Something went wrong, please try again.");
    let e = RunnerError::GameDoesNotExist(GameDoesNotExistError { id: GameId(9) });
    assert_eq!(e.message(), "Game with id: 9 does not exist");
}
