//! Keys and record bytes, written in RON.
//!
//! A user is stored under the RON text of `("user", id)` and a game under that of
//! `("game", id)`. A record is the RON text of the tuple of its fields, with ids
//! as plain integers. Reading a record back re-encodes it and compares the bytes,
//! so only text that this library would have written is accepted.
use crate::utils::{
    game_ids_from, game_ids_of, user_ids_from, user_ids_of, Game, GameId, GameView, User, UserId,
    UserView,
};
use vstd::prelude::*;

verus! {

#[verifier::external_type_specification]
#[verifier::external_body]
pub struct ExRonError(ron::Error);

#[verifier::external_type_specification]
#[verifier::external_body]
pub struct ExRonSpannedError(ron::error::SpannedError);

/// The bytes of `ron::to_string(&("user", id))`.
pub uninterp spec fn ron_user_key(id: i64) -> Seq<u8>;

/// The bytes of `ron::to_string(&("game", id))`.
pub uninterp spec fn ron_game_key(id: u64) -> Seq<u8>;

/// The bytes of the RON text of a user record's fields, as one tuple.
pub uninterp spec fn ron_user_record(
    id: i64,
    username: Seq<char>,
    admin_games: Seq<u64>,
    active_games: Seq<u64>,
    pending_games: Seq<u64>,
) -> Seq<u8>;

/// The bytes of the RON text of a game record's fields, as one tuple.
pub uninterp spec fn ron_game_record(
    id: u64,
    name: Seq<char>,
    admin: i64,
    active_users: Seq<i64>,
    pending_users: Seq<i64>,
) -> Seq<u8>;

pub open spec fn user_key(id: i64) -> Seq<u8> {
    ron_user_key(id)
}

pub open spec fn game_key(id: u64) -> Seq<u8> {
    ron_game_key(id)
}

pub open spec fn user_bytes(v: UserView) -> Seq<u8> {
    ron_user_record(v.id, v.username, v.admin_games, v.active_games, v.pending_games)
}

pub open spec fn game_bytes(v: GameView) -> Seq<u8> {
    ron_game_record(v.id, v.name, v.admin, v.active_users, v.pending_users)
}

/// No other user id, and no game id, has the key `k`.
pub open spec fn user_key_unique(id: i64, k: Seq<u8>) -> bool {
    &&& forall|j: i64| #[trigger] ron_user_key(j) == k ==> j == id
    &&& forall|g: u64| #[trigger] ron_game_key(g) != k
}

/// No other game id, and no user id, has the key `k`.
pub open spec fn game_key_unique(id: u64, k: Seq<u8>) -> bool {
    &&& forall|j: u64| #[trigger] ron_game_key(j) == k ==> j == id
    &&& forall|u: i64| #[trigger] ron_user_key(u) != k
}

/// No other user record has the bytes `b`.
pub open spec fn user_bytes_unique(v: UserView, b: Seq<u8>) -> bool {
    forall|w: UserView| #[trigger] user_bytes(w) == b ==> w == v
}

/// No other game record has the bytes `b`.
pub open spec fn game_bytes_unique(v: GameView, b: Seq<u8>) -> bool {
    forall|w: GameView| #[trigger] game_bytes(w) == b ==> w == v
}

/// Relies on ron::to_string: the RON text of `("user", id)`, as bytes. Writing a
/// string and an integer into a `String` cannot fail. ron reads back what it
/// writes, so no other value, and no `("game", g)`, has this text.
#[verifier::external_body]
fn ron_user_key_bytes(id: i64) -> (r: Result<Vec<u8>, ron::Error>)
    ensures
        r is Ok,
        r matches Ok(k) ==> k@ == ron_user_key(id),
        r matches Ok(k) ==> forall|j: i64| #[trigger] ron_user_key(j) == k@ ==> j == id,
        r matches Ok(k) ==> forall|g: u64| #[trigger] ron_game_key(g) != k@,
{
    ron::to_string(&("user", id)).map(String::into_bytes)
}

/// Relies on ron::to_string: the RON text of `("game", id)`, as bytes. Writing a
/// string and an integer into a `String` cannot fail. ron reads back what it
/// writes, so no other value, and no `("user", u)`, has this text.
#[verifier::external_body]
fn ron_game_key_bytes(id: u64) -> (r: Result<Vec<u8>, ron::Error>)
    ensures
        r is Ok,
        r matches Ok(k) ==> k@ == ron_game_key(id),
        r matches Ok(k) ==> forall|j: u64| #[trigger] ron_game_key(j) == k@ ==> j == id,
        r matches Ok(k) ==> forall|u: i64| #[trigger] ron_user_key(u) != k@,
{
    ron::to_string(&("game", id)).map(String::into_bytes)
}

/// Relies on ron::to_string: the RON text of the tuple of a user record's
/// fields, as bytes. Writing integers, a string and lists of integers into a
/// `String` cannot fail. ron reads back what it writes, so no other tuple has it.
#[verifier::external_body]
fn ron_user_to_bytes(
    id: i64,
    username: &String,
    admin_games: &Vec<u64>,
    active_games: &Vec<u64>,
    pending_games: &Vec<u64>,
) -> (r: Result<Vec<u8>, ron::Error>)
    ensures
        r is Ok,
        r matches Ok(b) ==> b@ == ron_user_record(
            id,
            username@,
            admin_games@,
            active_games@,
            pending_games@,
        ),
        r matches Ok(b) ==> forall|i: i64, n: Seq<char>, a: Seq<u64>, c: Seq<u64>, p: Seq<u64>|
            #[trigger] ron_user_record(i, n, a, c, p) == b@ ==> i == id && n == username@ && a
                == admin_games@ && c == active_games@ && p == pending_games@,
{
    ron::to_string(&(id, username, admin_games, active_games, pending_games)).map(
        String::into_bytes,
    )
}

/// Relies on ron::to_string: the RON text of the tuple of a game record's
/// fields, as bytes. Writing integers, a string and lists of integers into a
/// `String` cannot fail. ron reads back what it writes, so no other tuple has it.
#[verifier::external_body]
fn ron_game_to_bytes(
    id: u64,
    name: &String,
    admin: i64,
    active_users: &Vec<i64>,
    pending_users: &Vec<i64>,
) -> (r: Result<Vec<u8>, ron::Error>)
    ensures
        r is Ok,
        r matches Ok(b) ==> b@ == ron_game_record(id, name@, admin, active_users@, pending_users@),
        r matches Ok(b) ==> forall|i: u64, n: Seq<char>, a: i64, c: Seq<i64>, p: Seq<i64>|
            #[trigger] ron_game_record(i, n, a, c, p) == b@ ==> i == id && n == name@ && a == admin
                && c == active_users@ && p == pending_users@,
{
    ron::to_string(&(id, name, admin, active_users, pending_users)).map(String::into_bytes)
}

/// Relies on ron::de::from_bytes: reads bytes as the tuple of a user record's
/// fields. Its parser reads every escape that ron's writer emits, so the text
/// that ron::to_string wrote for a tuple comes back as that tuple.
#[verifier::external_body]
fn ron_user_from_bytes(b: &Vec<u8>) -> (r: Result<
    (i64, String, Vec<u64>, Vec<u64>, Vec<u64>),
    ron::error::SpannedError,
>)
    ensures
        forall|i: i64, n: Seq<char>, a: Seq<u64>, c: Seq<u64>, p: Seq<u64>|
            #[trigger] ron_user_record(i, n, a, c, p) == b@ ==> r is Ok && r->Ok_0.0 == i
                && r->Ok_0.1@ == n && r->Ok_0.2@ == a && r->Ok_0.3@ == c && r->Ok_0.4@ == p,
{
    ron::de::from_bytes(b.as_slice())
}

/// Relies on ron::de::from_bytes: reads bytes as the tuple of a game record's
/// fields. Its parser reads every escape that ron's writer emits, so the text
/// that ron::to_string wrote for a tuple comes back as that tuple.
#[verifier::external_body]
fn ron_game_from_bytes(b: &Vec<u8>) -> (r: Result<
    (u64, String, i64, Vec<i64>, Vec<i64>),
    ron::error::SpannedError,
>)
    ensures
        forall|i: u64, n: Seq<char>, a: i64, c: Seq<i64>, p: Seq<i64>|
            #[trigger] ron_game_record(i, n, a, c, p) == b@ ==> r is Ok && r->Ok_0.0 == i
                && r->Ok_0.1@ == n && r->Ok_0.2 == a && r->Ok_0.3@ == c && r->Ok_0.4@ == p,
{
    ron::de::from_bytes(b.as_slice())
}

impl UserId {
    /// The key under which this user's record is stored.
    pub fn to_key(self) -> (r: Vec<u8>)
        ensures
            r@ == user_key(self.0),
            user_key_unique(self.0, r@),
    {
        match ron_user_key_bytes(self.0) {
            Ok(k) => k,
            Err(_) => {
                proof {
                    assert(false);
                }
                Vec::new()
            },
        }
    }
}

impl GameId {
    /// The key under which this game's record is stored.
    pub fn to_key(self) -> (r: Vec<u8>)
        ensures
            r@ == game_key(self.0),
            game_key_unique(self.0, r@),
    {
        match ron_game_key_bytes(self.0) {
            Ok(k) => k,
            Err(_) => {
                proof {
                    assert(false);
                }
                Vec::new()
            },
        }
    }
}

impl User {
    /// The bytes under which this record is stored.
    pub fn to_ron(&self) -> (r: Vec<u8>)
        ensures
            r@ == user_bytes(self@),
            user_bytes_unique(self@, r@),
    {
        let admin = game_ids_of(&self.admin_games);
        let active = game_ids_of(&self.active_games);
        let pending = game_ids_of(&self.pending_games);
        match ron_user_to_bytes(self.id.0, &self.username, &admin, &active, &pending) {
            Ok(b) => {
                proof {
                    assert forall|w: UserView| #[trigger] user_bytes(w) == b@ implies w == self@ by {
                        assert(ron_user_record(
                            w.id,
                            w.username,
                            w.admin_games,
                            w.active_games,
                            w.pending_games,
                        ) == b@);
                    }
                }
                b
            },
            Err(_) => {
                proof {
                    assert(false);
                }
                Vec::new()
            },
        }
    }

    /// Reads a record back from its bytes: `Some` exactly for the bytes that
    /// `to_ron` writes for a record with the id `id`, and then that record.
    pub fn from_ron(b: &Vec<u8>, id: UserId) -> (r: Option<User>)
        ensures
            r matches Some(u) ==> user_bytes(u@) == b@ && u.id == id && user_bytes_unique(u@, b@),
            forall|v: UserView| v.id == id.0 && #[trigger] user_bytes(v) == b@ ==> r is Some && r->0@ == v,
    {
        match ron_user_from_bytes(b) {
            Ok((i, username, admin, active, pending)) => {
                if i != id.0 {
                    proof {
                        assert forall|v: UserView| v.id == id.0 && #[trigger] user_bytes(v) == b@ implies false by {
                            assert(ron_user_record(v.id, v.username, v.admin_games, v.active_games, v.pending_games) == b@);
                        }
                    }
                    return None;
                }
                let user = User {
                    id,
                    username,
                    admin_games: game_ids_from(&admin),
                    active_games: game_ids_from(&active),
                    pending_games: game_ids_from(&pending),
                };
                let again = user.to_ron();
                proof {
                    assert forall|v: UserView| v.id == id.0 && #[trigger] user_bytes(v) == b@ implies v == user@ && again@ == b@ by {
                        assert(ron_user_record(v.id, v.username, v.admin_games, v.active_games, v.pending_games) == b@);
                    }
                }
                if bytes_equal(&again, b) {
                    Some(user)
                } else {
                    None
                }
            },
            Err(_) => {
                proof {
                    assert forall|v: UserView| v.id == id.0 && #[trigger] user_bytes(v) == b@ implies false by {
                        assert(ron_user_record(v.id, v.username, v.admin_games, v.active_games, v.pending_games) == b@);
                    }
                }
                None
            },
        }
    }
}

impl Game {
    /// The bytes under which this record is stored.
    pub fn to_ron(&self) -> (r: Vec<u8>)
        ensures
            r@ == game_bytes(self@),
            game_bytes_unique(self@, r@),
    {
        let active = user_ids_of(&self.active_users);
        let pending = user_ids_of(&self.pending_users);
        match ron_game_to_bytes(self.id.0, &self.name, self.admin.0, &active, &pending) {
            Ok(b) => {
                proof {
                    assert forall|w: GameView| #[trigger] game_bytes(w) == b@ implies w == self@ by {
                        assert(ron_game_record(
                            w.id,
                            w.name,
                            w.admin,
                            w.active_users,
                            w.pending_users,
                        ) == b@);
                    }
                }
                b
            },
            Err(_) => {
                proof {
                    assert(false);
                }
                Vec::new()
            },
        }
    }

    /// Reads a record back from its bytes: `Some` exactly for the bytes that
    /// `to_ron` writes for a record with the id `id`, and then that record.
    pub fn from_ron(b: &Vec<u8>, id: GameId) -> (r: Option<Game>)
        ensures
            r matches Some(g) ==> game_bytes(g@) == b@ && g.id == id && game_bytes_unique(g@, b@),
            forall|v: GameView| v.id == id.0 && #[trigger] game_bytes(v) == b@ ==> r is Some && r->0@ == v,
    {
        match ron_game_from_bytes(b) {
            Ok((i, name, admin, active, pending)) => {
                if i != id.0 {
                    proof {
                        assert forall|v: GameView| v.id == id.0 && #[trigger] game_bytes(v) == b@ implies false by {
                            assert(ron_game_record(v.id, v.name, v.admin, v.active_users, v.pending_users) == b@);
                        }
                    }
                    return None;
                }
                let game = Game {
                    id,
                    name,
                    admin: UserId(admin),
                    active_users: user_ids_from(&active),
                    pending_users: user_ids_from(&pending),
                };
                let again = game.to_ron();
                proof {
                    assert forall|v: GameView| v.id == id.0 && #[trigger] game_bytes(v) == b@ implies v == game@ && again@ == b@ by {
                        assert(ron_game_record(v.id, v.name, v.admin, v.active_users, v.pending_users) == b@);
                    }
                }
                if bytes_equal(&again, b) {
                    Some(game)
                } else {
                    None
                }
            },
            Err(_) => {
                proof {
                    assert forall|v: GameView| v.id == id.0 && #[trigger] game_bytes(v) == b@ implies false by {
                        assert(ron_game_record(v.id, v.name, v.admin, v.active_users, v.pending_users) == b@);
                    }
                }
                None
            },
        }
    }
}

/// Whether two byte strings are equal.
pub fn bytes_equal(a: &Vec<u8>, b: &Vec<u8>) -> (r: bool)
    ensures
        r == (a@ == b@),
{
    if a.len() != b.len() {
        return false;
    }
    let mut i: usize = 0;
    while i < a.len()
        invariant
            a.len() == b.len(),
            i <= a.len(),
            forall|j: int| 0 <= j < i ==> a@[j] == b@[j],
        decreases a.len() - i,
    {
        if a[i] != b[i] {
            return false;
        }
        i = i + 1;
    }
    assert(a@ =~= b@);
    true
}

} // verus!
