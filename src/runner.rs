//! The repository: user and game records kept in a sled tree, and the
//! operations that change them. Every operation that touches a user and a game
//! writes both records in one batch.
use crate::codec::{
    game_bytes, game_bytes_unique, game_key, game_key_unique, user_bytes, user_bytes_unique,
    user_key, user_key_unique,
};
use crate::errors::{
    GameDoesNotExistError, GameIsAlreadyInUserError, GameIsNotInPendingError, RunnerError,
    StoreError, UserDoesNotExistError, UserIsAlreadyInGameError, UserIsNotInPendingError,
    UserRegistrationError,
};
use crate::store::{
    applied, batch_insert, batch_new, batch_remove, batch_writes, db_apply_batch, db_contents,
    db_contains_key, db_get, lemma_applied_empty, lemma_applied_insert, no_writes, open_db,
};
use crate::presents::{
    copy_ids, distribute_presents, is_derangement, lemma_derangement_ids, receivers_of,
};
use crate::utils::{
    user_ids, games_without, has_game, has_user, lemma_game_ids_push, lemma_user_ids_push,
    lemma_push_no_duplicates, lemma_without_contains, lemma_without_no_duplicates, lemma_without_twice, users_without, without, Game, GameId, GameView,
    User, UserId, UserView,
};
use vstd::prelude::*;

verus! {

/// The records that a store holds, read as users and games.
pub struct Tables {
    pub users: Map<i64, UserView>,
    pub games: Map<u64, GameView>,
}

/// The user record stored under `id`'s key, if the bytes there are one that this
/// library writes for `id`.
pub open spec fn user_at(c: Map<Seq<u8>, Seq<u8>>, id: i64) -> Option<UserView> {
    if c.contains_key(user_key(id)) && exists|v: UserView|
        v.id == id && #[trigger] user_bytes(v) == c[user_key(id)] {
        Some(choose|v: UserView| v.id == id && #[trigger] user_bytes(v) == c[user_key(id)])
    } else {
        None
    }
}

/// The game record stored under `id`'s key, if the bytes there are one that this
/// library writes for `id`.
pub open spec fn game_at(c: Map<Seq<u8>, Seq<u8>>, id: u64) -> Option<GameView> {
    if c.contains_key(game_key(id)) && exists|v: GameView|
        v.id == id && #[trigger] game_bytes(v) == c[game_key(id)] {
        Some(choose|v: GameView| v.id == id && #[trigger] game_bytes(v) == c[game_key(id)])
    } else {
        None
    }
}

pub open spec fn tables(c: Map<Seq<u8>, Seq<u8>>) -> Tables {
    Tables {
        users: Map::new(|u: i64| user_at(c, u) is Some, |u: i64| user_at(c, u)->0),
        games: Map::new(|g: u64| game_at(c, g) is Some, |g: u64| game_at(c, g)->0),
    }
}

proof fn lemma_user_read(c: Map<Seq<u8>, Seq<u8>>, v: UserView)
    requires
        c.contains_key(user_key(v.id)),
        c[user_key(v.id)] == user_bytes(v),
        user_bytes_unique(v, user_bytes(v)),
    ensures
        user_at(c, v.id) == Some(v),
{
}

proof fn lemma_game_read(c: Map<Seq<u8>, Seq<u8>>, v: GameView)
    requires
        c.contains_key(game_key(v.id)),
        c[game_key(v.id)] == game_bytes(v),
        game_bytes_unique(v, game_bytes(v)),
    ensures
        game_at(c, v.id) == Some(v),
{
}

/// Storing a user record changes that user and nothing else.
proof fn lemma_put_user(c: Map<Seq<u8>, Seq<u8>>, v: UserView)
    requires
        user_key_unique(v.id, user_key(v.id)),
        user_bytes_unique(v, user_bytes(v)),
    ensures
        tables(c.insert(user_key(v.id), user_bytes(v))) == (Tables {
            users: tables(c).users.insert(v.id, v),
            games: tables(c).games,
        }),
{
    let c1 = c.insert(user_key(v.id), user_bytes(v));
    assert forall|u: i64| u != v.id implies user_at(c1, u) == user_at(c, u) by {
        assert(user_key(u) != user_key(v.id));
    }
    assert forall|g: u64| game_at(c1, g) == game_at(c, g) by {
        assert(game_key(g) != user_key(v.id));
    }
    lemma_user_read(c1, v);
    assert(tables(c1).users =~= tables(c).users.insert(v.id, v));
    assert(tables(c1).games =~= tables(c).games);
}

/// Storing a game record changes that game and nothing else.
proof fn lemma_put_game(c: Map<Seq<u8>, Seq<u8>>, v: GameView)
    requires
        game_key_unique(v.id, game_key(v.id)),
        game_bytes_unique(v, game_bytes(v)),
    ensures
        tables(c.insert(game_key(v.id), game_bytes(v))) == (Tables {
            users: tables(c).users,
            games: tables(c).games.insert(v.id, v),
        }),
{
    let c1 = c.insert(game_key(v.id), game_bytes(v));
    assert forall|g: u64| g != v.id implies game_at(c1, g) == game_at(c, g) by {
        assert(game_key(g) != game_key(v.id));
    }
    assert forall|u: i64| user_at(c1, u) == user_at(c, u) by {
        assert(user_key(u) != game_key(v.id));
    }
    lemma_game_read(c1, v);
    assert(tables(c1).users =~= tables(c).users);
    assert(tables(c1).games =~= tables(c).games.insert(v.id, v));
}

/// Removing a game's key removes that game and nothing else.
proof fn lemma_remove_game(c: Map<Seq<u8>, Seq<u8>>, g: u64)
    requires
        game_key_unique(g, game_key(g)),
    ensures
        tables(c.remove(game_key(g))) == (Tables {
            users: tables(c).users,
            games: tables(c).games.remove(g),
        }),
{
    let c1 = c.remove(game_key(g));
    assert forall|h: u64| h != g implies game_at(c1, h) == game_at(c, h) by {
        assert(game_key(h) != game_key(g));
    }
    assert forall|u: i64| user_at(c1, u) == user_at(c, u) by {
        assert(user_key(u) != game_key(g));
    }
    assert(tables(c1).users =~= tables(c).users);
    assert(tables(c1).games =~= tables(c).games.remove(g));
}

/// A newly registered user: no games of any kind.
pub open spec fn fresh_user(id: i64, username: Seq<char>) -> UserView {
    UserView {
        id,
        username,
        admin_games: Seq::empty(),
        active_games: Seq::empty(),
        pending_games: Seq::empty(),
    }
}

/// `t` after `id` registers as `username`.
pub open spec fn registered(t: Tables, id: i64, username: Seq<char>) -> Tables {
    Tables { users: t.users.insert(id, fresh_user(id, username)), games: t.games }
}

/// `t` after `id` takes the name `username`.
pub open spec fn renamed(t: Tables, id: i64, username: Seq<char>) -> Tables {
    Tables { users: t.users.insert(id, UserView { username, ..t.users[id] }), games: t.games }
}

/// `t` after `admin` creates the game `g` named `name`.
pub open spec fn created(t: Tables, admin: i64, g: u64, name: Seq<char>) -> Tables {
    Tables {
        users: t.users.insert(
            admin,
            UserView { admin_games: t.users[admin].admin_games.push(g), ..t.users[admin] },
        ),
        games: t.games.insert(
            g,
            GameView {
                id: g,
                name,
                admin,
                active_users: Seq::empty(),
                pending_users: Seq::empty(),
            },
        ),
    }
}

/// Whether `u` is pending or active in `g`, as either record tells it.
pub open spec fn already_in(t: Tables, u: i64, g: u64) -> bool {
    t.games[g].pending_users.contains(u) || t.games[g].active_users.contains(u)
        || t.users[u].pending_games.contains(g) || t.users[u].active_games.contains(g)
}

/// `t` after `u` asks to join `g`.
pub open spec fn joined(t: Tables, u: i64, g: u64) -> Tables {
    Tables {
        users: t.users.insert(
            u,
            UserView { pending_games: t.users[u].pending_games.push(g), ..t.users[u] },
        ),
        games: t.games.insert(
            g,
            GameView { pending_users: t.games[g].pending_users.push(u), ..t.games[g] },
        ),
    }
}

/// `t` after `u` is moved from pending to active in `g`.
pub open spec fn promoted(t: Tables, u: i64, g: u64) -> Tables {
    Tables {
        users: t.users.insert(
            u,
            UserView {
                pending_games: without(t.users[u].pending_games, g),
                active_games: t.users[u].active_games.push(g),
                ..t.users[u]
            },
        ),
        games: t.games.insert(
            g,
            GameView {
                pending_users: without(t.games[g].pending_users, u),
                active_users: t.games[g].active_users.push(u),
                ..t.games[g]
            },
        ),
    }
}

/// `t` after `u` leaves `g`, pending or active: each of the two records that
/// exists no longer lists the other.
pub open spec fn withdrawn(t: Tables, u: i64, g: u64) -> Tables {
    Tables {
        users: if t.users.contains_key(u) {
            t.users.insert(
                u,
                UserView {
                    pending_games: without(t.users[u].pending_games, g),
                    active_games: without(t.users[u].active_games, g),
                    ..t.users[u]
                },
            )
        } else {
            t.users
        },
        games: if t.games.contains_key(g) {
            t.games.insert(
                g,
                GameView {
                    pending_users: without(t.games[g].pending_users, u),
                    active_users: without(t.games[g].active_users, u),
                    ..t.games[g]
                },
            )
        } else {
            t.games
        },
    }
}

/// A user record with `g` gone from all three of its lists.
pub open spec fn stripped(v: UserView, g: u64) -> UserView {
    UserView {
        admin_games: without(v.admin_games, g),
        active_games: without(v.active_games, g),
        pending_games: without(v.pending_games, g),
        ..v
    }
}

/// Whether the game names `u` as its administrator, or lists it at all.
pub open spec fn involved(game: GameView, u: i64) -> bool {
    u == game.admin || game.active_users.contains(u) || game.pending_users.contains(u)
}

/// `t` after the game `g` has run: its record is gone, and so is every mention of
/// it in the records of the users that it involved.
pub open spec fn after_run(t: Tables, g: u64) -> Tables {
    Tables {
        users: Map::new(
            |u: i64| t.users.contains_key(u),
            |u: i64|
                if involved(t.games[g], u) {
                    stripped(t.users[u], g)
                } else {
                    t.users[u]
                },
        ),
        games: t.games.remove(g),
    }
}

/// Whether there are bytes under the key of user `u` that are not a record
/// that this library writes for `u`.
pub open spec fn undecodable_user(c: Map<Seq<u8>, Seq<u8>>, u: i64) -> bool {
    c.contains_key(user_key(u)) && user_at(c, u) is None
}

/// Whether there are bytes under the key of game `g` that are not a record
/// that this library writes for `g`.
pub open spec fn undecodable_game(c: Map<Seq<u8>, Seq<u8>>, g: u64) -> bool {
    c.contains_key(game_key(g)) && game_at(c, g) is None
}

/// Whether an operation failed while applying its batch of writes, the one
/// failure after which the records may have changed.
pub open spec fn write_failed<T>(r: Result<T, RunnerError>) -> bool {
    r matches Err(RunnerError::Store(StoreError::Write))
}

/// Whether the records of `u` and `g` agree on each kind of membership: the user
/// lists the game as active, pending or administered exactly when the game
/// lists the user as active or pending, or names it as administrator.
pub open spec fn pair_consistent(t: Tables, u: i64, g: u64) -> bool {
    &&& (t.users.contains_key(u) && t.users[u].active_games.contains(g)) == (t.games.contains_key(g)
        && t.games[g].active_users.contains(u))
    &&& (t.users.contains_key(u) && t.users[u].pending_games.contains(g)) == (t.games.contains_key(g)
        && t.games[g].pending_users.contains(u))
    &&& (t.users.contains_key(u) && t.users[u].admin_games.contains(g)) == (t.games.contains_key(g)
        && t.games[g].admin == u)
}

/// Every user and game agree on their memberships.
pub open spec fn consistent(t: Tables) -> bool {
    forall|u: i64, g: u64| #[trigger] pair_consistent(t, u, g)
}

/// A game lists no active user twice, and no user as both pending and active.
pub open spec fn game_well_formed(v: GameView) -> bool {
    &&& v.active_users.no_duplicates()
    &&& forall|u: i64| !(#[trigger] v.active_users.contains(u) && v.pending_users.contains(u))
}

/// The records are consistent, and every game is well formed.
pub open spec fn well_formed(t: Tables) -> bool {
    &&& consistent(t)
    &&& forall|g: u64| #[trigger] t.games.contains_key(g) ==> game_well_formed(t.games[g])
}

/// Registration keeps the records well formed.
pub proof fn lemma_registered_well_formed(t: Tables, id: i64, username: Seq<char>)
    requires
        well_formed(t),
        !t.users.contains_key(id),
    ensures
        well_formed(registered(t, id, username)),
{
    lemma_registered_consistent(t, id, username);
}

/// A change of username keeps the records well formed.
pub proof fn lemma_renamed_well_formed(t: Tables, id: i64, username: Seq<char>)
    requires
        well_formed(t),
        t.users.contains_key(id),
    ensures
        well_formed(renamed(t, id, username)),
{
    lemma_renamed_consistent(t, id, username);
}

/// Creating a game under an unused id keeps the records well formed.
pub proof fn lemma_created_well_formed(t: Tables, admin: i64, g: u64, name: Seq<char>)
    requires
        well_formed(t),
        t.users.contains_key(admin),
        !t.games.contains_key(g),
    ensures
        well_formed(created(t, admin, g, name)),
{
    lemma_created_consistent(t, admin, g, name);
    let t1 = created(t, admin, g, name);
    assert forall|h: u64| #[trigger] t1.games.contains_key(h) implies game_well_formed(t1.games[h]) by {
        if h == g {
            assert(t1.games[h].active_users =~= Seq::<i64>::empty());
        }
    }
}

/// A request to join keeps the records well formed.
pub proof fn lemma_joined_well_formed(t: Tables, u: i64, g: u64)
    requires
        well_formed(t),
        t.users.contains_key(u),
        t.games.contains_key(g),
        !already_in(t, u, g),
    ensures
        well_formed(joined(t, u, g)),
{
    broadcast use vstd::seq_lib::group_seq_properties;

    lemma_joined_consistent(t, u, g);
    let t1 = joined(t, u, g);
    assert(game_well_formed(t.games[g]));
    assert forall|h: u64| #[trigger] t1.games.contains_key(h) implies game_well_formed(t1.games[h]) by {
        assert(t.games.contains_key(h));
    }
}

/// Promotion of a pending user keeps the records well formed.
pub proof fn lemma_promoted_well_formed(t: Tables, u: i64, g: u64)
    requires
        well_formed(t),
        t.users.contains_key(u),
        t.games.contains_key(g),
        t.games[g].pending_users.contains(u),
    ensures
        well_formed(promoted(t, u, g)),
{
    broadcast use vstd::seq_lib::group_seq_properties;

    lemma_promoted_consistent(t, u, g);
    let t1 = promoted(t, u, g);
    let old_game = t.games[g];
    assert(game_well_formed(old_game));
    assert(!old_game.active_users.contains(u));
    lemma_push_no_duplicates(old_game.active_users, u);
    assert forall|v: i64| !(#[trigger] t1.games[g].active_users.contains(v) && t1.games[g].pending_users.contains(v)) by {
        lemma_without_contains(old_game.pending_users, u, v);
    }
    assert forall|h: u64| #[trigger] t1.games.contains_key(h) implies game_well_formed(t1.games[h]) by {
        assert(t.games.contains_key(h));
    }
}

/// Withdrawal keeps the records well formed.
pub proof fn lemma_withdrawn_well_formed(t: Tables, u: i64, g: u64)
    requires
        well_formed(t),
    ensures
        well_formed(withdrawn(t, u, g)),
{
    lemma_withdrawn_consistent(t, u, g);
    let t1 = withdrawn(t, u, g);
    if t.games.contains_key(g) {
        let old_game = t.games[g];
        assert(game_well_formed(old_game));
        lemma_without_no_duplicates(old_game.active_users, u);
        assert forall|v: i64| !(#[trigger] t1.games[g].active_users.contains(v) && t1.games[g].pending_users.contains(v)) by {
            lemma_without_contains(old_game.pending_users, u, v);
            lemma_without_contains(old_game.active_users, u, v);
        }
    }
    assert forall|h: u64| #[trigger] t1.games.contains_key(h) implies game_well_formed(t1.games[h]) by {
        assert(t.games.contains_key(h));
    }
}

/// Running a game keeps the records well formed.
pub proof fn lemma_after_run_well_formed(t: Tables, g: u64)
    requires
        well_formed(t),
        t.games.contains_key(g),
    ensures
        well_formed(after_run(t, g)),
{
    lemma_after_run_consistent(t, g);
    let t1 = after_run(t, g);
    assert forall|h: u64| #[trigger] t1.games.contains_key(h) implies game_well_formed(t1.games[h]) by {
        assert(t.games.contains_key(h));
    }
}

/// An empty store holds consistent, well-formed records.
pub proof fn lemma_empty_well_formed()
    ensures
        well_formed(tables(Map::empty())),
{
    let t = tables(Map::empty());
    assert forall|u: i64, g: u64| #[trigger] pair_consistent(t, u, g) by {
        assert(!t.users.contains_key(u));
        assert(!t.games.contains_key(g));
    }
    assert forall|g: u64| #[trigger] t.games.contains_key(g) implies game_well_formed(t.games[g]) by {
    }
}

/// Registration keeps the records consistent.
pub proof fn lemma_registered_consistent(t: Tables, id: i64, username: Seq<char>)
    requires
        consistent(t),
        !t.users.contains_key(id),
    ensures
        consistent(registered(t, id, username)),
{
    let t1 = registered(t, id, username);
    assert forall|u: i64, g: u64| #[trigger] pair_consistent(t1, u, g) by {
        assert(pair_consistent(t, u, g));
    }
}

/// A change of username keeps the records consistent.
pub proof fn lemma_renamed_consistent(t: Tables, id: i64, username: Seq<char>)
    requires
        consistent(t),
        t.users.contains_key(id),
    ensures
        consistent(renamed(t, id, username)),
{
    let t1 = renamed(t, id, username);
    assert forall|u: i64, g: u64| #[trigger] pair_consistent(t1, u, g) by {
        assert(pair_consistent(t, u, g));
    }
}

/// Creating a game under an unused id keeps the records consistent.
pub proof fn lemma_created_consistent(t: Tables, admin: i64, g: u64, name: Seq<char>)
    requires
        consistent(t),
        t.users.contains_key(admin),
        !t.games.contains_key(g),
    ensures
        consistent(created(t, admin, g, name)),
{
    broadcast use vstd::seq_lib::group_seq_properties;

    let t1 = created(t, admin, g, name);
    assert forall|u: i64, h: u64| #[trigger] pair_consistent(t1, u, h) by {
        assert(pair_consistent(t, u, h));
        assert(pair_consistent(t, u, g));
    }
}

/// A request to join keeps the records consistent.
pub proof fn lemma_joined_consistent(t: Tables, u: i64, g: u64)
    requires
        consistent(t),
        t.users.contains_key(u),
        t.games.contains_key(g),
        !already_in(t, u, g),
    ensures
        consistent(joined(t, u, g)),
{
    broadcast use vstd::seq_lib::group_seq_properties;

    let t1 = joined(t, u, g);
    assert forall|v: i64, h: u64| #[trigger] pair_consistent(t1, v, h) by {
        assert(pair_consistent(t, v, h));
        assert(pair_consistent(t, u, g));
    }
}

/// Promotion keeps the records consistent.
pub proof fn lemma_promoted_consistent(t: Tables, u: i64, g: u64)
    requires
        consistent(t),
        t.users.contains_key(u),
        t.games.contains_key(g),
    ensures
        consistent(promoted(t, u, g)),
{
    broadcast use vstd::seq_lib::group_seq_properties;

    let t1 = promoted(t, u, g);
    assert forall|v: i64, h: u64| #[trigger] pair_consistent(t1, v, h) by {
        assert(pair_consistent(t, v, h));
        lemma_without_contains(t.users[u].pending_games, g, h);
        lemma_without_contains(t.games[g].pending_users, u, v);
    }
}

/// Withdrawal keeps the records consistent.
pub proof fn lemma_withdrawn_consistent(t: Tables, u: i64, g: u64)
    requires
        consistent(t),
    ensures
        consistent(withdrawn(t, u, g)),
{
    let t1 = withdrawn(t, u, g);
    assert forall|v: i64, h: u64| #[trigger] pair_consistent(t1, v, h) by {
        assert(pair_consistent(t, v, h));
        assert(pair_consistent(t, u, g));
        lemma_without_contains(t.users[u].pending_games, g, h);
        lemma_without_contains(t.users[u].active_games, g, h);
        lemma_without_contains(t.games[g].pending_users, u, v);
        lemma_without_contains(t.games[g].active_users, u, v);
    }
}

/// Withdrawing twice leaves the records as withdrawing once does.
pub proof fn lemma_withdraw_idempotent(t: Tables, u: i64, g: u64)
    ensures
        withdrawn(withdrawn(t, u, g), u, g) == withdrawn(t, u, g),
{
    let t1 = withdrawn(t, u, g);
    lemma_without_twice(t.users[u].pending_games, g);
    lemma_without_twice(t.users[u].active_games, g);
    lemma_without_twice(t.games[g].pending_users, u);
    lemma_without_twice(t.games[g].active_users, u);
    assert(withdrawn(t1, u, g).users =~= t1.users);
    assert(withdrawn(t1, u, g).games =~= t1.games);
}

/// Running a game keeps the records consistent.
pub proof fn lemma_after_run_consistent(t: Tables, g: u64)
    requires
        consistent(t),
        t.games.contains_key(g),
    ensures
        consistent(after_run(t, g)),
{
    let t1 = after_run(t, g);
    let game = t.games[g];
    assert forall|v: i64, h: u64| #[trigger] pair_consistent(t1, v, h) by {
        assert(pair_consistent(t, v, h));
        assert(pair_consistent(t, v, g));
        if t.users.contains_key(v) {
            lemma_without_contains(t.users[v].pending_games, g, h);
            lemma_without_contains(t.users[v].active_games, g, h);
            lemma_without_contains(t.users[v].admin_games, g, h);
        }
    }
}

/// What an active user of a game with fewer than two players is told.
pub open spec fn too_few_text() -> Seq<char> {
    "It looks like there's only one participant :(We can't run this game."@
}

/// What the administrator of a game with fewer than two players is told.
pub open spec fn done_too_few_text() -> Seq<char> {
    "All messages have been sent successfully!It seems like there was less than 2 players so there'll be no presents :("@
}

/// What the administrator of a game that ran is told.
pub open spec fn done_text() -> Seq<char> {
    "All messages have been sent successfully!"@
}

/// What a giver is told: whom they prepare a present for.
pub open spec fn gift_text(giver: Seq<char>, game: Seq<char>, receiver: Seq<char>) -> Seq<char> {
    "Ho Ho Ho, "@ + giver + "!\n\nAs a result of participating in game "@ + game
        + ". It looks like you have to prepare a present for "@ + receiver
        + "!\n\nHave a happy new year, your secret santa bot."@
}

/// The messages that running the game `g` of `t` sends: one per active user,
/// in the game's order, then one to the administrator. With two or more active
/// users each one learns whom they give to, and the receivers are a derangement
/// of the active users.
pub open spec fn run_messages(t: Tables, g: u64, msgs: Seq<(UserId, String)>) -> bool {
    let game = t.games[g];
    let n = game.active_users.len() as int;
    &&& msgs.len() == n + 1
    &&& forall|i: int| 0 <= i < n ==> (#[trigger] msgs[i]).0.0 == game.active_users[i]
    &&& msgs[n].0.0 == game.admin
    &&& n <= 1 ==> msgs[n].1@ == done_too_few_text() && forall|i: int|
        0 <= i < n ==> (#[trigger] msgs[i]).1@ == too_few_text()
    &&& n >= 2 ==> msgs[n].1@ == done_text() && exists|rs: Seq<i64>|
        #[trigger] is_derangement(game.active_users, rs) && forall|i: int|
            0 <= i < n ==> (#[trigger] msgs[i]).1@ == gift_text(
                t.users[game.active_users[i]].username,
                game.name,
                t.users[rs[i]].username,
            )
}

/// The users of `t`, with `g` stripped from those whose id is in `done`.
pub open spec fn stripped_users(t: Tables, g: u64, done: Seq<i64>) -> Map<i64, UserView> {
    Map::new(
        |u: i64| t.users.contains_key(u),
        |u: i64|
            if done.contains(u) {
                stripped(t.users[u], g)
            } else {
                t.users[u]
            },
    )
}

fn gift_message(giver: &String, game: &String, receiver: &String) -> (r: String)
    ensures
        r@ == gift_text(giver@, game@, receiver@),
{
    let mut m = "Ho Ho Ho, ".to_owned();
    m.append(giver.as_str());
    m.append("!\n\nAs a result of participating in game ");
    m.append(game.as_str());
    m.append(". It looks like you have to prepare a present for ");
    m.append(receiver.as_str());
    m.append("!\n\nHave a happy new year, your secret santa bot.");
    m
}

/// The administrator, then the active users, then the pending users of `game`.
fn involved_ids(game: &Game) -> (r: Vec<UserId>)
    ensures
        forall|u: i64| #[trigger] user_ids(r@).contains(u) <==> involved(game@, u),
{
    let mut r: Vec<UserId> = Vec::new();
    r.push(game.admin);
    let mut i: usize = 0;
    while i < game.active_users.len()
        invariant
            i <= game.active_users.len(),
            r@ == seq![game.admin] + game.active_users@.take(i as int),
        decreases game.active_users.len() - i,
    {
        r.push(game.active_users[i]);
        i = i + 1;
        assert(r@ =~= seq![game.admin] + game.active_users@.take(i as int));
    }
    let mut j: usize = 0;
    while j < game.pending_users.len()
        invariant
            j <= game.pending_users.len(),
            r@ == seq![game.admin] + game.active_users@ + game.pending_users@.take(j as int),
        decreases game.pending_users.len() - j,
    {
        r.push(game.pending_users[j]);
        j = j + 1;
        assert(r@ =~= seq![game.admin] + game.active_users@ + game.pending_users@.take(
            j as int,
        ));
    }
    proof {
        assert(game.active_users@.take(game.active_users@.len() as int) =~= game.active_users@);
        assert(game.pending_users@.take(game.pending_users@.len() as int) =~= game.pending_users@);
        let a = game.active_users@;
        let p = game.pending_users@;
        assert(user_ids(r@) =~= seq![game.admin.0] + user_ids(a) + user_ids(p));
        assert forall|u: i64| involved(game@, u) implies user_ids(r@).contains(u) by {
            if u == game.admin.0 {
                assert(user_ids(r@)[0] == u);
            } else if user_ids(a).contains(u) {
                let k = choose|k: int| 0 <= k < user_ids(a).len() && user_ids(a)[k] == u;
                assert(user_ids(r@)[k + 1] == u);
            } else if user_ids(p).contains(u) {
                let k = choose|k: int| 0 <= k < user_ids(p).len() && user_ids(p)[k] == u;
                assert(user_ids(r@)[k + 1 + a.len()] == u);
            }
        }
        assert forall|u: i64| user_ids(r@).contains(u) implies involved(game@, u) by {
            {
                let k = choose|k: int| 0 <= k < user_ids(r@).len() && user_ids(r@)[k] == u;
                if k == 0 {
                } else if k < 1 + a.len() {
                    assert(user_ids(a)[k - 1] == u);
                } else {
                    assert(user_ids(p)[k - 1 - a.len()] == u);
                }
            }
        }
    }
    r
}

/// Whether no id occurs twice in `v`.
fn all_distinct(v: &Vec<UserId>) -> (r: bool)
    ensures
        r == v@.no_duplicates(),
{
    let mut i: usize = 0;
    while i < v.len()
        invariant
            i <= v.len(),
            forall|a: int, b: int| 0 <= a < b < v@.len() && a < i ==> v@[a] != v@[b],
        decreases v.len() - i,
    {
        let mut j: usize = i + 1;
        while j < v.len()
            invariant
                i < v.len(),
                i + 1 <= j <= v.len(),
                forall|a: int, b: int| 0 <= a < b < v@.len() && a < i ==> v@[a] != v@[b],
                forall|b: int| i < b < j ==> v@[i as int] != v@[b],
            decreases v.len() - j,
        {
            if v[i] == v[j] {
                return false;
            }
            j = j + 1;
        }
        i = i + 1;
    }
    true
}

/// The position of the record of `id` among `records`.
fn find_record(records: &Vec<User>, id: UserId) -> (r: usize)
    requires
        exists|j: int| 0 <= j < records@.len() && (#[trigger] records@[j]).id == id,
    ensures
        r < records@.len(),
        records@[r as int].id == id,
{
    let mut i: usize = 0;
    while i < records.len()
        invariant
            i <= records.len(),
            forall|j: int| 0 <= j < i ==> (#[trigger] records@[j]).id != id,
            exists|j: int| 0 <= j < records@.len() && (#[trigger] records@[j]).id == id,
        decreases records.len() - i,
    {
        if records[i].id == id {
            return i;
        }
        i = i + 1;
    }
    i
}

/// Decides a registration of `id` as `username`, given the record read for
/// `id`: the refusal where there is one, or the new record.
pub fn register_step(existing: Option<User>, id: UserId, username: String) -> (r: Result<
    User,
    RunnerError,
>)
    ensures
        existing is Some ==> r is Err && r->Err_0 is UserRegistration
            && r->Err_0->UserRegistration_0.id == existing->0.id
            && r->Err_0->UserRegistration_0.username@ == existing->0@.username,
        existing is None ==> r is Ok && r->Ok_0.id == id && r->Ok_0@ == fresh_user(id.0, username@),
{
    match existing {
        Some(user) => Err(
            RunnerError::UserRegistration(
                UserRegistrationError { id: user.id, username: user.username },
            ),
        ),
        None => {
            let ghost name = username@;
            let user = User {
                id,
                username,
                admin_games: Vec::new(),
                active_games: Vec::new(),
                pending_games: Vec::new(),
            };
            assert(user@ == fresh_user(id.0, name)) by {
                assert(user@.admin_games =~= Seq::empty());
                assert(user@.active_games =~= Seq::empty());
                assert(user@.pending_games =~= Seq::empty());
            }
            Ok(user)
        },
    }
}

/// Decides a change of `user_id`'s name to `new_username`, given the record
/// read: the error where there is none, or the renamed record.
pub fn rename_step(user: Option<User>, user_id: UserId, new_username: String) -> (r: Result<
    User,
    RunnerError,
>)
    requires
        user matches Some(u) ==> u.id == user_id,
    ensures
        user is None ==> r == (Err::<User, RunnerError>(
            RunnerError::UserDoesNotExist(UserDoesNotExistError { id: user_id }),
        )),
        user is Some ==> r is Ok && r->Ok_0.id == user_id && r->Ok_0@ == (UserView {
            username: new_username@,
            ..user->0@
        }),
{
    match user {
        None => Err(RunnerError::UserDoesNotExist(UserDoesNotExistError { id: user_id })),
        Some(user) => Ok(
            User {
                id: user.id,
                username: new_username,
                admin_games: user.admin_games,
                active_games: user.active_games,
                pending_games: user.pending_games,
            },
        ),
    }
}

/// The records that creating the game `id`, named `name`, writes: its
/// administrator's record with the game added, and the new game.
pub fn create_step(admin: User, id: GameId, name: String) -> (r: (User, Game))
    ensures
        r.0.id == admin.id,
        r.0@ == (UserView { admin_games: admin@.admin_games.push(id.0), ..admin@ }),
        r.1.id == id,
        r.1@ == (GameView {
            id: id.0,
            name: name@,
            admin: admin.id.0,
            active_users: Seq::empty(),
            pending_users: Seq::empty(),
        }),
{
    let mut admin_games = admin.admin_games;
    proof {
        lemma_game_ids_push(admin_games@, id);
    }
    admin_games.push(id);
    let new_admin = User {
        id: admin.id,
        username: admin.username,
        admin_games,
        active_games: admin.active_games,
        pending_games: admin.pending_games,
    };
    let game = Game {
        id,
        name,
        admin: new_admin.id,
        active_users: Vec::new(),
        pending_users: Vec::new(),
    };
    assert(game@.active_users =~= Seq::empty());
    assert(game@.pending_users =~= Seq::empty());
    (new_admin, game)
}

/// A user record with the game `g` gone from all three of its lists: what
/// running `g` writes for each user it involves.
pub fn strip_step(user: User, g: GameId) -> (r: User)
    ensures
        r.id == user.id,
        r@ == stripped(user@, g.0),
{
    User {
        id: user.id,
        username: user.username,
        admin_games: games_without(&user.admin_games, g),
        active_games: games_without(&user.active_games, g),
        pending_games: games_without(&user.pending_games, g),
    }
}

/// Decides a request of `user_id` to join `game_id`, given the two records as
/// read (`None` where there is none): the error, or both records as they are
/// to be written.
pub fn join_step(game: Option<Game>, user: Option<User>, user_id: UserId, game_id: GameId) -> (r:
    Result<(User, Game), RunnerError>)
    requires
        game matches Some(g) ==> g.id == game_id,
        user matches Some(u) ==> u.id == user_id,
    ensures
        game is None ==> r == (Err::<(User, Game), RunnerError>(
            RunnerError::GameDoesNotExist(GameDoesNotExistError { id: game_id }),
        )),
        game is Some && user is None ==> r == (Err::<(User, Game), RunnerError>(
            RunnerError::UserDoesNotExist(UserDoesNotExistError { id: user_id }),
        )),
        game is Some && user is Some && (game->0@.pending_users.contains(user_id.0)
            || game->0@.active_users.contains(user_id.0)) ==> r == (Err::<(User, Game), RunnerError>(
            RunnerError::UserIsAlreadyInGame(UserIsAlreadyInGameError { user_id, game_id }),
        )),
        game is Some && user is Some && !game->0@.pending_users.contains(user_id.0)
            && !game->0@.active_users.contains(user_id.0) && (user->0@.pending_games.contains(
            game_id.0,
        ) || user->0@.active_games.contains(game_id.0)) ==> r == (Err::<(User, Game), RunnerError>(
            RunnerError::GameIsAlreadyInUser(GameIsAlreadyInUserError { user_id, game_id }),
        )),
        r is Ok ==> game is Some && user is Some && r->Ok_0.0.id == user_id && r->Ok_0.1.id == game_id
            && r->Ok_0.0@ == (UserView {
            pending_games: user->0@.pending_games.push(game_id.0),
            ..user->0@
        }) && r->Ok_0.1@ == (GameView {
            pending_users: game->0@.pending_users.push(user_id.0),
            ..game->0@
        }),
        game is Some && user is Some && !game->0@.pending_users.contains(user_id.0)
            && !game->0@.active_users.contains(user_id.0) && !user->0@.pending_games.contains(
            game_id.0,
        ) && !user->0@.active_games.contains(game_id.0) ==> r is Ok,
{
    let game = match game {
        None => return Err(RunnerError::GameDoesNotExist(GameDoesNotExistError { id: game_id })),
        Some(g) => g,
    };
    let user = match user {
        None => return Err(RunnerError::UserDoesNotExist(UserDoesNotExistError { id: user_id })),
        Some(u) => u,
    };
    if has_user(&game.pending_users, user_id) || has_user(&game.active_users, user_id) {
        return Err(
            RunnerError::UserIsAlreadyInGame(UserIsAlreadyInGameError { user_id, game_id }),
        );
    }
    if has_game(&user.pending_games, game_id) || has_game(&user.active_games, game_id) {
        return Err(
            RunnerError::GameIsAlreadyInUser(GameIsAlreadyInUserError { user_id, game_id }),
        );
    }
    let mut pending_games = user.pending_games;
    proof {
        lemma_game_ids_push(pending_games@, game_id);
    }
    pending_games.push(game_id);
    let new_user = User {
        id: user.id,
        username: user.username,
        admin_games: user.admin_games,
        active_games: user.active_games,
        pending_games,
    };
    let mut pending_users = game.pending_users;
    proof {
        lemma_user_ids_push(pending_users@, user_id);
    }
    pending_users.push(user_id);
    let new_game = Game {
        id: game.id,
        name: game.name,
        admin: game.admin,
        active_users: game.active_users,
        pending_users,
    };
    Ok((new_user, new_game))
}

/// Decides the promotion of `user_id` in `game_id`, given the two records as
/// read: the error, or both records as they are to be written.
pub fn promote_step(game: Option<Game>, user: Option<User>, user_id: UserId, game_id: GameId) -> (r:
    Result<(User, Game), RunnerError>)
    requires
        game matches Some(g) ==> g.id == game_id,
        user matches Some(u) ==> u.id == user_id,
    ensures
        game is None ==> r == (Err::<(User, Game), RunnerError>(
            RunnerError::GameDoesNotExist(GameDoesNotExistError { id: game_id }),
        )),
        game is Some && user is None ==> r == (Err::<(User, Game), RunnerError>(
            RunnerError::UserDoesNotExist(UserDoesNotExistError { id: user_id }),
        )),
        game is Some && user is Some && !game->0@.pending_users.contains(user_id.0) ==> r == (Err::<
            (User, Game),
            RunnerError,
        >(RunnerError::UserIsNotInPending(UserIsNotInPendingError { user_id, game_id }))),
        game is Some && user is Some && game->0@.pending_users.contains(user_id.0)
            && !user->0@.pending_games.contains(game_id.0) ==> r == (Err::<(User, Game), RunnerError>(
            RunnerError::GameIsNotInPending(GameIsNotInPendingError { user_id, game_id }),
        )),
        r is Ok ==> game is Some && user is Some && r->Ok_0.0.id == user_id && r->Ok_0.1.id == game_id
            && r->Ok_0.0@ == (UserView {
            pending_games: without(user->0@.pending_games, game_id.0),
            active_games: user->0@.active_games.push(game_id.0),
            ..user->0@
        }) && r->Ok_0.1@ == (GameView {
            pending_users: without(game->0@.pending_users, user_id.0),
            active_users: game->0@.active_users.push(user_id.0),
            ..game->0@
        }),
        game is Some && user is Some && game->0@.pending_users.contains(user_id.0)
            && user->0@.pending_games.contains(game_id.0) ==> r is Ok,
{
    let game = match game {
        None => return Err(RunnerError::GameDoesNotExist(GameDoesNotExistError { id: game_id })),
        Some(g) => g,
    };
    let user = match user {
        None => return Err(RunnerError::UserDoesNotExist(UserDoesNotExistError { id: user_id })),
        Some(u) => u,
    };
    if !has_user(&game.pending_users, user_id) {
        return Err(RunnerError::UserIsNotInPending(UserIsNotInPendingError { user_id, game_id }));
    }
    if !has_game(&user.pending_games, game_id) {
        return Err(RunnerError::GameIsNotInPending(GameIsNotInPendingError { user_id, game_id }));
    }
    let pending_games = games_without(&user.pending_games, game_id);
    let mut active_games = user.active_games;
    proof {
        lemma_game_ids_push(active_games@, game_id);
    }
    active_games.push(game_id);
    let new_user = User {
        id: user.id,
        username: user.username,
        admin_games: user.admin_games,
        active_games,
        pending_games,
    };
    let pending_users = users_without(&game.pending_users, user_id);
    let mut active_users = game.active_users;
    proof {
        lemma_user_ids_push(active_users@, user_id);
    }
    active_users.push(user_id);
    let new_game = Game {
        id: game.id,
        name: game.name,
        admin: game.admin,
        active_users,
        pending_users,
    };
    Ok((new_user, new_game))
}

/// Decides a withdrawal of `user_id` from `game_id`, given the two records as
/// read: each record that exists, without the other in its lists.
pub fn withdraw_step(game: Option<Game>, user: Option<User>, user_id: UserId, game_id: GameId) -> (r:
    (Option<User>, Option<Game>))
    requires
        game matches Some(g) ==> g.id == game_id,
        user matches Some(u) ==> u.id == user_id,
    ensures
        r.0 is Some <==> user is Some,
        r.1 is Some <==> game is Some,
        user is Some ==> r.0->0.id == user_id && r.0->0@ == (UserView {
            pending_games: without(user->0@.pending_games, game_id.0),
            active_games: without(user->0@.active_games, game_id.0),
            ..user->0@
        }),
        game is Some ==> r.1->0.id == game_id && r.1->0@ == (GameView {
            pending_users: without(game->0@.pending_users, user_id.0),
            active_users: without(game->0@.active_users, user_id.0),
            ..game->0@
        }),
{
    let new_user = match user {
        Some(user) => Some(
            User {
                id: user.id,
                username: user.username,
                admin_games: user.admin_games,
                active_games: games_without(&user.active_games, game_id),
                pending_games: games_without(&user.pending_games, game_id),
            },
        ),
        None => None,
    };
    let new_game = match game {
        Some(game) => Some(
            Game {
                id: game.id,
                name: game.name,
                admin: game.admin,
                active_users: users_without(&game.active_users, user_id),
                pending_users: users_without(&game.pending_users, user_id),
            },
        ),
        None => None,
    };
    (new_user, new_game)
}

/// How many ids `new_game` draws before it gives up.
const MAX_DRAWS: u64 = 0xffff_ffff_ffff_ffff;

/// Relies on rand::thread_rng and Rng::gen: a uniformly random `u64`. Nothing
/// is known of its value.
#[verifier::external_body]
fn random_game_id() -> (r: u64) {
    rand::Rng::gen(&mut rand::thread_rng())
}

/// The repository: a handle on the sled tree that holds every record. The runner
/// is the tree's only writer while it lives.
pub struct Runner {
    database: sled::Db,
}

impl Runner {
    /// What the tree holds.
    pub closed spec fn contents(&self) -> Map<Seq<u8>, Seq<u8>> {
        db_contents(self.database)
    }

    /// The users and games that the tree holds.
    pub open spec fn state(&self) -> Tables {
        tables(self.contents())
    }

    /// Opens, or creates, the database at `db_path`.
    pub fn new(db_path: &str) -> (r: Result<Runner, RunnerError>)
        ensures
            r matches Err(e) ==> e == RunnerError::Store(StoreError::Io),
    {
        match open_db(db_path) {
            Ok(database) => Ok(Runner { database }),
            Err(_) => Err(RunnerError::Store(StoreError::Io)),
        }
    }

    /// A runner over a database that is already open. While the runner lives,
    /// no other handle on the same tree may write to it: the runner's model of
    /// the records is only kept up to date by its own writes.
    pub fn from_db(database: sled::Db) -> (r: Runner)
        ensures
            r.contents() == db_contents(database),
    {
        Runner { database }
    }

    /// The user with the id `id`, if there is one. Bytes under the user's key
    /// that this library would not have written are reported as corrupt.
    pub fn get_user(&self, id: &UserId) -> (r: Result<Option<User>, RunnerError>)
        ensures
            r matches Ok(Some(u)) ==> self.state().users.contains_key(id.0) && self.state().users[id.0]
                == u@ && u.id == *id,
            r matches Ok(None) ==> !self.state().users.contains_key(id.0) && !self.contents().contains_key(
                user_key(id.0),
            ),
            r matches Err(e) ==> e == RunnerError::Store(StoreError::Io) || (e == RunnerError::Store(
                StoreError::Corrupt,
            ) && undecodable_user(self.contents(), id.0)),
    {
        let key = id.to_key();
        match db_get(&self.database, &key) {
            Err(_) => Err(RunnerError::Store(StoreError::Io)),
            Ok(None) => Ok(None),
            Ok(Some(bytes)) => match User::from_ron(&bytes, *id) {
                Some(user) => {
                    proof {
                        lemma_user_read(self.contents(), user@);
                    }
                    Ok(Some(user))
                },
                None => Err(RunnerError::Store(StoreError::Corrupt)),
            },
        }
    }

    /// The game with the id `id`, if there is one. Bytes under the game's key
    /// that this library would not have written are reported as corrupt.
    pub fn get_game(&self, id: &GameId) -> (r: Result<Option<Game>, RunnerError>)
        ensures
            r matches Ok(Some(g)) ==> self.state().games.contains_key(id.0) && self.state().games[id.0]
                == g@ && g.id == *id,
            r matches Ok(None) ==> !self.state().games.contains_key(id.0) && !self.contents().contains_key(
                game_key(id.0),
            ),
            r matches Err(e) ==> e == RunnerError::Store(StoreError::Io) || (e == RunnerError::Store(
                StoreError::Corrupt,
            ) && undecodable_game(self.contents(), id.0)),
    {
        let key = id.to_key();
        match db_get(&self.database, &key) {
            Err(_) => Err(RunnerError::Store(StoreError::Io)),
            Ok(None) => Ok(None),
            Ok(Some(bytes)) => match Game::from_ron(&bytes, *id) {
                Some(game) => {
                    proof {
                        lemma_game_read(self.contents(), game@);
                    }
                    Ok(Some(game))
                },
                None => Err(RunnerError::Store(StoreError::Corrupt)),
            },
        }
    }

    /// Registers `id` under `username`. Fails, and changes nothing, where a record
    /// for `id` already exists.
    pub fn new_user(&mut self, id: UserId, username: String) -> (r: Result<(), RunnerError>)
        ensures
            r is Ok ==> !old(self).state().users.contains_key(id.0) && final(self).state()
                == registered(old(self).state(), id.0, username@),
            r matches Err(RunnerError::UserRegistration(e)) ==> old(self).state().users.contains_key(
                id.0,
            ) && e.id == id && e.username@ == old(self).state().users[id.0].username && *final(self)
                == *old(self),
            r matches Err(e) ==> e is UserRegistration || e is Store,
            r matches Err(RunnerError::Store(e)) ==> e is Io || e is Write || (e is Corrupt
                && undecodable_user(old(self).contents(), id.0)),
            r is Err && !write_failed(r) ==> *final(self) == *old(self),
            r is Ok && consistent(old(self).state()) ==> consistent(final(self).state()),
            r is Ok && well_formed(old(self).state()) ==> well_formed(final(self).state()),
    {
        let existing = match self.get_user(&id) {
            Err(e) => return Err(e),
            Ok(u) => u,
        };
        let ghost name = username@;
        let user = match register_step(existing, id, username) {
            Err(e) => return Err(e),
            Ok(u) => u,
        };
        let r = self.put_user(&user);
        proof {
            if r is Ok && consistent(old(self).state()) {
                lemma_registered_consistent(old(self).state(), id.0, name);
            }
            if r is Ok && well_formed(old(self).state()) {
                lemma_registered_well_formed(old(self).state(), id.0, name);
            }
        }
        r
    }

    /// Gives the user `user_id` the name `new_username`.
    pub fn change_username(&mut self, user_id: &UserId, new_username: String) -> (r: Result<
        (),
        RunnerError,
    >)
        ensures
            r is Ok ==> old(self).state().users.contains_key(user_id.0) && final(self).state()
                == renamed(old(self).state(), user_id.0, new_username@),
            r matches Err(RunnerError::UserDoesNotExist(e)) ==> !old(
                self,
            ).state().users.contains_key(user_id.0) && e.id == *user_id && *final(self) == *old(
                self,
            ),
            r matches Err(e) ==> e is UserDoesNotExist || e is Store,
            r matches Err(RunnerError::Store(e)) ==> e is Io || e is Write || (e is Corrupt
                && undecodable_user(old(self).contents(), user_id.0)),
            r is Err && !write_failed(r) ==> *final(self) == *old(self),
            r is Ok && consistent(old(self).state()) ==> consistent(final(self).state()),
            r is Ok && well_formed(old(self).state()) ==> well_formed(final(self).state()),
    {
        let user = match self.get_user(user_id) {
            Err(e) => return Err(e),
            Ok(u) => u,
        };
        let ghost name = new_username@;
        let new_user = match rename_step(user, *user_id, new_username) {
            Err(e) => return Err(e),
            Ok(u) => u,
        };
        let r = self.put_user(&new_user);
        proof {
            if r is Ok {
                let t1 = renamed(old(self).state(), user_id.0, name);
                assert(final(self).state().users =~= t1.users);
                if consistent(old(self).state()) {
                    lemma_renamed_consistent(old(self).state(), user_id.0, name);
                }
                if well_formed(old(self).state()) {
                    lemma_renamed_well_formed(old(self).state(), user_id.0, name);
                }
            }
        }
        r
    }

    /// Draws random ids until one has no record. Each draw is free with a chance
    /// of almost one, so the bound on draws is never met in practice.
    fn fresh_game_id(&self) -> (r: Result<GameId, RunnerError>)
        ensures
            r matches Ok(g) ==> !self.contents().contains_key(game_key(g.0)),
            r matches Err(e) ==> e == RunnerError::Store(StoreError::Io) || e == RunnerError::Store(
                StoreError::IdsExhausted,
            ),
    {
        let mut draws: u64 = 0;
        while draws < MAX_DRAWS
            decreases MAX_DRAWS - draws,
        {
            let id = GameId(random_game_id());
            let key = id.to_key();
            match db_contains_key(&self.database, &key) {
                Err(_) => return Err(RunnerError::Store(StoreError::Io)),
                Ok(false) => return Ok(id),
                Ok(true) => {},
            }
            draws = draws + 1;
        }
        Err(RunnerError::Store(StoreError::IdsExhausted))
    }

    /// Creates a game named `name` with `admin` as its administrator, under an id
    /// that no record has, and returns that id.
    pub fn new_game(&mut self, admin: UserId, name: String) -> (r: Result<GameId, RunnerError>)
        ensures
            r matches Ok(g) ==> old(self).state().users.contains_key(admin.0) && !old(
                self,
            ).contents().contains_key(game_key(g.0)) && !old(self).state().games.contains_key(g.0)
                && final(self).state() == created(old(self).state(), admin.0, g.0, name@),
            r matches Err(RunnerError::UserDoesNotExist(e)) ==> !old(
                self,
            ).state().users.contains_key(admin.0) && e.id == admin && *final(self) == *old(self),
            r matches Err(e) ==> e is UserDoesNotExist || e is Store,
            r matches Err(RunnerError::Store(e)) ==> e is Io || e is Write || e is IdsExhausted || (
            e is Corrupt && undecodable_user(old(self).contents(), admin.0)),
            r is Err && !write_failed(r) ==> *final(self) == *old(self),
            r is Ok && consistent(old(self).state()) ==> consistent(final(self).state()),
            r is Ok && well_formed(old(self).state()) ==> well_formed(final(self).state()),
    {
        let user = match self.get_user(&admin) {
            Err(e) => return Err(e),
            Ok(None) => return Err(
                RunnerError::UserDoesNotExist(UserDoesNotExistError { id: admin }),
            ),
            Ok(Some(u)) => u,
        };
        let id = match self.fresh_game_id() {
            Ok(g) => g,
            Err(e) => return Err(e),
        };
        let ghost t0 = old(self).state();
        let ghost gname = name@;
        let (new_user, game) = create_step(user, id, name);
        match self.put_user_and_game(&new_user, &game) {
            Ok(()) => {
                proof {
                    let t1 = created(t0, admin.0, id.0, gname);
                    assert(final(self).state().users =~= t1.users);
                    assert(final(self).state().games =~= t1.games);
                    if consistent(t0) {
                        lemma_created_consistent(t0, admin.0, id.0, gname);
                    }
                    if well_formed(t0) {
                        lemma_created_well_formed(t0, admin.0, id.0, gname);
                    }
                }
                Ok(id)
            },
            Err(e) => Err(e),
        }
    }

    /// Puts `user_id` on the waiting list of `game_id`, on both records at once.
    pub fn add_user_to_pending(&mut self, user_id: &UserId, game_id: &GameId) -> (r: Result<
        (),
        RunnerError,
    >)
        ensures
            r is Ok ==> old(self).state().games.contains_key(game_id.0) && old(
                self,
            ).state().users.contains_key(user_id.0) && !already_in(
                old(self).state(),
                user_id.0,
                game_id.0,
            ) && final(self).state() == joined(old(self).state(), user_id.0, game_id.0),
            r matches Err(RunnerError::GameDoesNotExist(e)) ==> e.id == *game_id && !old(
                self,
            ).state().games.contains_key(game_id.0) && *final(self) == *old(self),
            r matches Err(RunnerError::UserDoesNotExist(e)) ==> e.id == *user_id && old(
                self,
            ).state().games.contains_key(game_id.0) && !old(self).state().users.contains_key(
                user_id.0,
            ) && *final(self) == *old(self),
            r matches Err(RunnerError::UserIsAlreadyInGame(e)) ==> e.user_id == *user_id
                && e.game_id == *game_id && old(self).state().games.contains_key(game_id.0) && old(
                self,
            ).state().users.contains_key(user_id.0) && (old(
                self,
            ).state().games[game_id.0].pending_users.contains(user_id.0) || old(
                self,
            ).state().games[game_id.0].active_users.contains(user_id.0)) && *final(self) == *old(
                self,
            ),
            r matches Err(RunnerError::GameIsAlreadyInUser(e)) ==> e.user_id == *user_id
                && e.game_id == *game_id && old(self).state().games.contains_key(game_id.0) && old(
                self,
            ).state().users.contains_key(user_id.0) && already_in(
                old(self).state(),
                user_id.0,
                game_id.0,
            ) && !old(self).state().games[game_id.0].pending_users.contains(user_id.0) && !old(
                self,
            ).state().games[game_id.0].active_users.contains(user_id.0) && *final(self) == *old(
                self,
            ),
            r matches Err(e) ==> e is GameDoesNotExist || e is UserDoesNotExist
                || e is UserIsAlreadyInGame || e is GameIsAlreadyInUser || e is Store,
            r matches Err(RunnerError::Store(e)) ==> e is Io || e is Write || (e is Corrupt && (
            undecodable_game(old(self).contents(), game_id.0) || undecodable_user(
                old(self).contents(),
                user_id.0,
            ))),
            r is Err && !write_failed(r) ==> *final(self) == *old(self),
            r is Ok && consistent(old(self).state()) ==> consistent(final(self).state()),
            r is Ok && well_formed(old(self).state()) ==> well_formed(final(self).state()),
    {
        let game = match self.get_game(game_id) {
            Err(e) => return Err(e),
            Ok(g) => g,
        };
        let user = match self.get_user(user_id) {
            Err(e) => return Err(e),
            Ok(u) => u,
        };
        let ghost t0 = old(self).state();
        let (new_user, new_game) = match join_step(game, user, *user_id, *game_id) {
            Err(e) => return Err(e),
            Ok(records) => records,
        };
        let r = self.put_user_and_game(&new_user, &new_game);
        proof {
            if r is Ok {
                let t1 = joined(t0, user_id.0, game_id.0);
                assert(final(self).state().users =~= t1.users);
                assert(final(self).state().games =~= t1.games);
                if consistent(t0) {
                    lemma_joined_consistent(t0, user_id.0, game_id.0);
                }
                if well_formed(t0) {
                    lemma_joined_well_formed(t0, user_id.0, game_id.0);
                }
            }
        }
        r
    }

    /// Moves `user_id` from the waiting list of `game_id` to its active users, on
    /// both records at once. Fails where either record does not list the other
    /// as pending.
    pub fn promote_user_from_pending_to_active(
        &mut self,
        user_id: &UserId,
        game_id: &GameId,
    ) -> (r: Result<(), RunnerError>)
        ensures
            r is Ok ==> old(self).state().games.contains_key(game_id.0) && old(
                self,
            ).state().users.contains_key(user_id.0) && old(
                self,
            ).state().games[game_id.0].pending_users.contains(user_id.0) && old(
                self,
            ).state().users[user_id.0].pending_games.contains(game_id.0) && final(self).state()
                == promoted(old(self).state(), user_id.0, game_id.0),
            r matches Err(RunnerError::GameDoesNotExist(e)) ==> e.id == *game_id && !old(
                self,
            ).state().games.contains_key(game_id.0) && *final(self) == *old(self),
            r matches Err(RunnerError::UserDoesNotExist(e)) ==> e.id == *user_id && old(
                self,
            ).state().games.contains_key(game_id.0) && !old(self).state().users.contains_key(
                user_id.0,
            ) && *final(self) == *old(self),
            r matches Err(RunnerError::UserIsNotInPending(e)) ==> e.user_id == *user_id
                && e.game_id == *game_id && old(self).state().games.contains_key(game_id.0) && old(
                self,
            ).state().users.contains_key(user_id.0) && !old(
                self,
            ).state().games[game_id.0].pending_users.contains(user_id.0) && *final(self) == *old(
                self,
            ),
            r matches Err(RunnerError::GameIsNotInPending(e)) ==> e.user_id == *user_id
                && e.game_id == *game_id && old(self).state().games.contains_key(game_id.0) && old(
                self,
            ).state().users.contains_key(user_id.0) && old(
                self,
            ).state().games[game_id.0].pending_users.contains(user_id.0) && !old(
                self,
            ).state().users[user_id.0].pending_games.contains(game_id.0) && *final(self) == *old(
                self,
            ),
            r matches Err(e) ==> e is GameDoesNotExist || e is UserDoesNotExist
                || e is UserIsNotInPending || e is GameIsNotInPending || e is Store,
            r matches Err(RunnerError::Store(e)) ==> e is Io || e is Write || (e is Corrupt && (
            undecodable_game(old(self).contents(), game_id.0) || undecodable_user(
                old(self).contents(),
                user_id.0,
            ))),
            r is Err && !write_failed(r) ==> *final(self) == *old(self),
            r is Ok && consistent(old(self).state()) ==> consistent(final(self).state()),
            r is Ok && well_formed(old(self).state()) ==> well_formed(final(self).state()),
    {
        let game = match self.get_game(game_id) {
            Err(e) => return Err(e),
            Ok(g) => g,
        };
        let user = match self.get_user(user_id) {
            Err(e) => return Err(e),
            Ok(u) => u,
        };
        let ghost t0 = old(self).state();
        let (new_user, new_game) = match promote_step(game, user, *user_id, *game_id) {
            Err(e) => return Err(e),
            Ok(records) => records,
        };
        let r = self.put_user_and_game(&new_user, &new_game);
        proof {
            if r is Ok {
                let t1 = promoted(t0, user_id.0, game_id.0);
                assert(final(self).state().users =~= t1.users);
                assert(final(self).state().games =~= t1.games);
                if consistent(t0) {
                    lemma_promoted_consistent(t0, user_id.0, game_id.0);
                }
                if well_formed(t0) {
                    lemma_promoted_well_formed(t0, user_id.0, game_id.0);
                }
            }
        }
        r
    }

    /// Takes `user_id` out of `game_id`, pending or active, on both records at
    /// once. Where the user was no member, or a record does not exist, there is
    /// less or nothing to remove, and that is no error.
    pub fn remove_user_from_game(&mut self, user_id: &UserId, game_id: &GameId) -> (r: Result<
        (),
        RunnerError,
    >)
        ensures
            r is Ok ==> final(self).state() == withdrawn(old(self).state(), user_id.0, game_id.0),
            r matches Err(e) ==> e is Store,
            r matches Err(RunnerError::Store(e)) ==> e is Io || e is Write || (e is Corrupt && (
            undecodable_game(old(self).contents(), game_id.0) || undecodable_user(
                old(self).contents(),
                user_id.0,
            ))),
            r is Err && !write_failed(r) ==> *final(self) == *old(self),
            r is Ok && consistent(old(self).state()) ==> consistent(final(self).state()),
            r is Ok && well_formed(old(self).state()) ==> well_formed(final(self).state()),
    {
        let game = match self.get_game(game_id) {
            Err(e) => return Err(e),
            Ok(g) => g,
        };
        let user = match self.get_user(user_id) {
            Err(e) => return Err(e),
            Ok(u) => u,
        };
        let ghost t0 = old(self).state();
        let (new_user, new_game) = withdraw_step(game, user, *user_id, *game_id);
        let r = match (new_user, new_game) {
            (Some(u), Some(g)) => self.put_user_and_game(&u, &g),
            (Some(u), None) => self.put_user(&u),
            (None, Some(g)) => self.put_game(&g),
            (None, None) => Ok(()),
        };
        proof {
            if r is Ok {
                let t1 = withdrawn(t0, user_id.0, game_id.0);
                assert(final(self).state().users =~= t1.users);
                assert(final(self).state().games =~= t1.games);
                if consistent(t0) {
                    lemma_withdrawn_consistent(t0, user_id.0, game_id.0);
                }
                if well_formed(t0) {
                    lemma_withdrawn_well_formed(t0, user_id.0, game_id.0);
                }
            }
        }
        r
    }

    /// Runs the game `game_id`: its record is removed and every mention of it is
    /// stripped from the records of its administrator, active and pending users,
    /// all in one batch. Returns the messages to send, as `run_messages` gives
    /// them; the runner sends nothing itself. Nothing changes where the game or
    /// one of the users it involves has no record, or where the game lists an
    /// active user twice.
    pub fn run_game(&mut self, game_id: GameId) -> (r: Result<Vec<(UserId, String)>, RunnerError>)
        ensures
            r matches Ok(msgs) ==> old(self).state().games.contains_key(game_id.0) && (forall|u: i64|
                involved(old(self).state().games[game_id.0], u) ==> old(
                    self,
                ).state().users.contains_key(u)) && final(self).state() == after_run(
                old(self).state(),
                game_id.0,
            ) && run_messages(old(self).state(), game_id.0, msgs@),
            r matches Err(RunnerError::GameDoesNotExist(e)) ==> e.id == game_id && !old(
                self,
            ).state().games.contains_key(game_id.0) && *final(self) == *old(self),
            r matches Err(RunnerError::UserDoesNotExist(e)) ==> old(self).state().games.contains_key(
                game_id.0,
            ) && involved(old(self).state().games[game_id.0], e.id.0) && !old(
                self,
            ).state().users.contains_key(e.id.0) && *final(self) == *old(self),
            r matches Err(e) ==> e is GameDoesNotExist || e is UserDoesNotExist || e is Store,
            r is Ok ==> old(self).state().games[game_id.0].active_users.no_duplicates(),
            r is Err && well_formed(old(self).state()) && old(self).state().games.contains_key(game_id.0)
                ==> r->Err_0 == RunnerError::Store(StoreError::Io) || write_failed(r),
            r matches Err(RunnerError::Store(e)) ==> e is Io || e is Write || (e is Corrupt && (
            undecodable_game(old(self).contents(), game_id.0) || (old(
                self,
            ).state().games.contains_key(game_id.0) && ((exists|u: i64|
                involved(old(self).state().games[game_id.0], u) && #[trigger] undecodable_user(
                    old(self).contents(),
                    u,
                )) || !old(self).state().games[game_id.0].active_users.no_duplicates())))),
            r is Err && !write_failed(r) ==> *final(self) == *old(self),
            r is Ok && consistent(old(self).state()) ==> consistent(final(self).state()),
            r is Ok && well_formed(old(self).state()) ==> well_formed(final(self).state()),
    {
        let game = match self.get_game(&game_id) {
            Err(e) => return Err(e),
            Ok(None) => return Err(
                RunnerError::GameDoesNotExist(GameDoesNotExistError { id: game_id }),
            ),
            Ok(Some(g)) => g,
        };
        let ghost t0 = old(self).state();
        let ghost c0 = self.contents();
        let ghost g = game_id.0;
        let ids = involved_ids(&game);
        let mut batch = batch_new();
        let mut records: Vec<User> = Vec::new();
        let mut i: usize = 0;
        proof {
            lemma_applied_empty(c0);
            assert(stripped_users(t0, g, user_ids(ids@.take(0))) =~= t0.users);
            assert(tables(c0).users =~= t0.users);
        }
        while i < ids.len()
            invariant
                *self == *old(self),
                c0 == self.contents(),
                t0 == tables(c0),
                i <= ids.len(),
                t0.games.contains_key(g),
                game@ == t0.games[g],
                game.id == game_id,
                forall|u: i64| #[trigger] user_ids(ids@).contains(u) <==> involved(game@, u),
                tables(applied(c0, batch_writes(batch))) == (Tables {
                    users: stripped_users(t0, g, user_ids(ids@.take(i as int))),
                    games: t0.games,
                }),
                records@.len() == i,
                forall|j: int|
                    0 <= j < i ==> (#[trigger] records@[j]).id == ids@[j] && t0.users.contains_key(
                        ids@[j].0,
                    ) && records@[j]@ == stripped(t0.users[ids@[j].0], g),
            decreases ids.len() - i,
        {
            proof {
                assert(user_ids(ids@)[i as int] == ids@[i as int].0);
                assert(user_ids(ids@).contains(ids@[i as int].0));
            }
            proof {
                if well_formed(t0) {
                    assert(pair_consistent(t0, ids@[i as int].0, g));
                }
            }
            let user = match self.get_user(&ids[i]) {
                Err(e) => return Err(e),
                Ok(None) => return Err(
                    RunnerError::UserDoesNotExist(UserDoesNotExistError { id: ids[i] }),
                ),
                Ok(Some(u)) => u,
            };
            let new_user = strip_step(user, game_id);
            let key = new_user.id.to_key();
            let bytes = new_user.to_ron();
            proof {
                let w = batch_writes(batch);
                let u = ids@[i as int].0;
                lemma_applied_insert(c0, w, key@, Some(bytes@));
                lemma_put_user(applied(c0, w), new_user@);
                assert(new_user@ == stripped(t0.users[u], g));
                assert(user_ids(ids@.take(i + 1)) =~= user_ids(ids@.take(i as int)).push(u));
                broadcast use vstd::seq_lib::group_seq_properties;

                assert(stripped_users(t0, g, user_ids(ids@.take(i + 1))) =~= stripped_users(
                    t0,
                    g,
                    user_ids(ids@.take(i as int)),
                ).insert(u, stripped(t0.users[u], g)));
            }
            batch_insert(&mut batch, &key, &bytes);
            records.push(new_user);
            i = i + 1;
        }
        let gkey = game_id.to_key();
        if !all_distinct(&game.active_users) {
            proof {
                let s = game.active_users@;
                let (a, b) = choose|a: int, b: int|
                    0 <= a < s.len() && 0 <= b < s.len() && a != b && s[a] == s[b];
                assert(user_ids(s)[a] == user_ids(s)[b]);
            }
            return Err(RunnerError::Store(StoreError::Corrupt));
        }
        proof {
            let w = batch_writes(batch);
            lemma_applied_insert(c0, w, gkey@, None);
            lemma_remove_game(applied(c0, w), g);
            assert(ids@.take(ids@.len() as int) =~= ids@);
            assert(stripped_users(t0, g, user_ids(ids@)) =~= after_run(t0, g).users);
        }
        batch_remove(&mut batch, &gkey);
        match db_apply_batch(&mut self.database, batch) {
            Ok(()) => {},
            Err(_) => return Err(RunnerError::Store(StoreError::Write)),
        }
        proof {
            assert(final(self).state() == after_run(t0, g));
            assert forall|u: i64| involved(t0.games[g], u) implies t0.users.contains_key(u) by {
                assert(user_ids(ids@).contains(u));
                let j = choose|j: int| 0 <= j < user_ids(ids@).len() && user_ids(ids@)[j] == u;
                assert(records@[j].id == ids@[j]);
            }
            if consistent(t0) {
                lemma_after_run_consistent(t0, g);
            }
            if well_formed(t0) {
                lemma_after_run_well_formed(t0, g);
            }
        }
        let msgs = Self::run_game_messages(&game, &records, &ids, Ghost(t0));
        Ok(msgs)
    }

    /// The messages of a run, from the game and the records of the users it
    /// involves, as they were before the run.
    fn run_game_messages(
        game: &Game,
        records: &Vec<User>,
        ids: &Vec<UserId>,
        Ghost(t0): Ghost<Tables>,
    ) -> (msgs: Vec<(UserId, String)>)
        requires
            t0.games.contains_key(game.id.0),
            game@ == t0.games[game.id.0],
            game.active_users@.no_duplicates(),
            forall|u: i64| #[trigger] user_ids(ids@).contains(u) <==> involved(game@, u),
            records@.len() == ids@.len(),
            forall|j: int|
                0 <= j < ids@.len() ==> (#[trigger] records@[j]).id == ids@[j]
                    && t0.users.contains_key(ids@[j].0) && records@[j]@ == stripped(
                    t0.users[ids@[j].0],
                    game.id.0,
                ),
        ensures
            run_messages(t0, game.id.0, msgs@),
    {
        let ghost g = game.id.0;
        let n = game.active_users.len();
        let mut msgs: Vec<(UserId, String)> = Vec::new();
        if n <= 1 {
            let mut i: usize = 0;
            while i < n
                invariant
                    n == game.active_users.len(),
                    i <= n,
                    msgs@.len() == i,
                    forall|j: int|
                        0 <= j < i ==> (#[trigger] msgs@[j]).0 == game.active_users@[j] && msgs@[j].1@
                            == too_few_text(),
                decreases n - i,
            {
                msgs.push(
                    (
                        game.active_users[i],
                        "It looks like there's only one participant :(We can't run this game.".to_owned(),
                    ),
                );
                i = i + 1;
            }
            msgs.push(
                (
                    game.admin,
                    "All messages have been sent successfully!It seems like there was less than 2 players so there'll be no presents :(".to_owned(),
                ),
            );
        } else {
            let givers = copy_ids(&game.active_users);
            let pairs = distribute_presents(givers);
            let ghost rs = user_ids(receivers_of(pairs@));
            proof {
                lemma_derangement_ids(game.active_users@, receivers_of(pairs@));
            }
            let mut k: usize = 0;
            while k < n
                invariant
                    n == game.active_users.len(),
                    n == pairs@.len(),
                    k <= n,
                    msgs@.len() == k,
                    t0.games.contains_key(g),
                    game@ == t0.games[g],
                    forall|u: i64| #[trigger] user_ids(ids@).contains(u) <==> involved(game@, u),
                    records@.len() == ids@.len(),
                    forall|j: int|
                        0 <= j < ids@.len() ==> (#[trigger] records@[j]).id == ids@[j]
                            && t0.users.contains_key(ids@[j].0) && records@[j]@ == stripped(
                            t0.users[ids@[j].0],
                            g,
                        ),
                    forall|i: int| 0 <= i < n ==> (#[trigger] pairs@[i]).0 == game.active_users@[i],
                    is_derangement(game@.active_users, rs),
                    rs == user_ids(receivers_of(pairs@)),
                    forall|j: int|
                        0 <= j < k ==> (#[trigger] msgs@[j]).0 == game.active_users@[j] && msgs@[j].1@
                            == gift_text(
                            t0.users[game@.active_users[j]].username,
                            game@.name,
                            t0.users[rs[j]].username,
                        ),
                decreases n - k,
            {
                let giver = pairs[k].0;
                let receiver = pairs[k].1;
                proof {
                    broadcast use vstd::seq_lib::group_to_multiset_ensures;

                    assert(game@.active_users[k as int] == giver.0);
                    assert(game@.active_users.contains(giver.0));
                    assert(involved(game@, giver.0));
                    assert(user_ids(ids@).contains(giver.0));
                    let jg = choose|j: int| 0 <= j < user_ids(ids@).len() && user_ids(ids@)[j] == giver.0;
                    assert(ids@[jg].0 == giver.0);
                    assert(records@[jg].id == giver);
                    assert(rs[k as int] == receiver.0);
                    assert(rs.contains(receiver.0));
                    assert(rs.to_multiset().count(receiver.0) > 0);
                    assert(game@.active_users.to_multiset().count(receiver.0) > 0);
                    assert(game@.active_users.contains(receiver.0));
                    assert(involved(game@, receiver.0));
                    assert(user_ids(ids@).contains(receiver.0));
                    let jr = choose|j: int| 0 <= j < user_ids(ids@).len() && user_ids(ids@)[j] == receiver.0;
                    assert(ids@[jr].0 == receiver.0);
                    assert(records@[jr].id == receiver);
                }
                let gi = find_record(records, giver);
                let ri = find_record(records, receiver);
                let text = gift_message(&records[gi].username, &game.name, &records[ri].username);
                msgs.push((giver, text));
                k = k + 1;
            }
            msgs.push((game.admin, "All messages have been sent successfully!".to_owned()));
            proof {
                assert(is_derangement(t0.games[g].active_users, rs));
            }
        }
        msgs
    }

    /// Stores `user` under its id.
    fn put_user(&mut self, user: &User) -> (r: Result<(), RunnerError>)
        ensures
            r is Ok ==> final(self).state() == (Tables {
                users: old(self).state().users.insert(user.id.0, user@),
                games: old(self).state().games,
            }),
            r is Err ==> r->Err_0 == RunnerError::Store(StoreError::Write),
    {
        let key = user.id.to_key();
        let bytes = user.to_ron();
        let mut batch = batch_new();
        batch_insert(&mut batch, &key, &bytes);
        proof {
            let c = self.contents();
            lemma_applied_insert(c, no_writes(), key@, Some(bytes@));
            lemma_applied_empty(c);
            lemma_put_user(c, user@);
        }
        match db_apply_batch(&mut self.database, batch) {
            Ok(()) => Ok(()),
            Err(_) => Err(RunnerError::Store(StoreError::Write)),
        }
    }

    /// Stores `game` under its id.
    fn put_game(&mut self, game: &Game) -> (r: Result<(), RunnerError>)
        ensures
            r is Ok ==> final(self).state() == (Tables {
                users: old(self).state().users,
                games: old(self).state().games.insert(game.id.0, game@),
            }),
            r is Err ==> r->Err_0 == RunnerError::Store(StoreError::Write),
    {
        let key = game.id.to_key();
        let bytes = game.to_ron();
        let mut batch = batch_new();
        batch_insert(&mut batch, &key, &bytes);
        proof {
            let c = self.contents();
            lemma_applied_insert(c, no_writes(), key@, Some(bytes@));
            lemma_applied_empty(c);
            lemma_put_game(c, game@);
        }
        match db_apply_batch(&mut self.database, batch) {
            Ok(()) => Ok(()),
            Err(_) => Err(RunnerError::Store(StoreError::Write)),
        }
    }

    /// Stores `user` and `game` under their ids, in one batch.
    fn put_user_and_game(&mut self, user: &User, game: &Game) -> (r: Result<(), RunnerError>)
        ensures
            r is Ok ==> final(self).state() == (Tables {
                users: old(self).state().users.insert(user.id.0, user@),
                games: old(self).state().games.insert(game.id.0, game@),
            }),
            r is Err ==> r->Err_0 == RunnerError::Store(StoreError::Write),
    {
        let ukey = user.id.to_key();
        let ubytes = user.to_ron();
        let gkey = game.id.to_key();
        let gbytes = game.to_ron();
        let mut batch = batch_new();
        batch_insert(&mut batch, &ukey, &ubytes);
        batch_insert(&mut batch, &gkey, &gbytes);
        proof {
            let c = self.contents();
            let w1 = no_writes().insert(ukey@, Some(ubytes@));
            lemma_applied_empty(c);
            lemma_applied_insert(c, no_writes(), ukey@, Some(ubytes@));
            lemma_applied_insert(c, w1, gkey@, Some(gbytes@));
            lemma_put_user(c, user@);
            lemma_put_game(c.insert(ukey@, ubytes@), game@);
        }
        match db_apply_batch(&mut self.database, batch) {
            Ok(()) => Ok(()),
            Err(_) => Err(RunnerError::Store(StoreError::Write)),
        }
    }
}

} // verus!
