//! Identifiers and records, with their mathematical views.
use vstd::prelude::*;

verus! {

/// A user's identity: the chat identifier that the transport hands over.
#[derive(Clone, Copy, PartialEq, Eq, Structural, Debug)]
pub struct UserId(pub i64);

/// A game's identity, drawn at random when the game is created.
#[derive(Clone, Copy, PartialEq, Eq, Structural, Debug)]
pub struct GameId(pub u64);

/// What a user record holds, with ids as plain integers.
pub struct UserView {
    pub id: i64,
    pub username: Seq<char>,
    pub admin_games: Seq<u64>,
    pub active_games: Seq<u64>,
    pub pending_games: Seq<u64>,
}

/// What a game record holds, with ids as plain integers.
pub struct GameView {
    pub id: u64,
    pub name: Seq<char>,
    pub admin: i64,
    pub active_users: Seq<i64>,
    pub pending_users: Seq<i64>,
}

pub open spec fn game_ids(s: Seq<GameId>) -> Seq<u64> {
    s.map_values(|g: GameId| g.0)
}

pub open spec fn user_ids(s: Seq<UserId>) -> Seq<i64> {
    s.map_values(|u: UserId| u.0)
}

#[derive(Debug)]
pub struct User {
    pub id: UserId,
    pub username: String,
    pub admin_games: Vec<GameId>,
    pub active_games: Vec<GameId>,
    pub pending_games: Vec<GameId>,
}

impl View for User {
    type V = UserView;

    open spec fn view(&self) -> UserView {
        UserView {
            id: self.id.0,
            username: self.username@,
            admin_games: game_ids(self.admin_games@),
            active_games: game_ids(self.active_games@),
            pending_games: game_ids(self.pending_games@),
        }
    }
}

#[derive(Debug)]
pub struct Game {
    pub id: GameId,
    pub name: String,
    pub admin: UserId,
    pub active_users: Vec<UserId>,
    pub pending_users: Vec<UserId>,
}

impl View for Game {
    type V = GameView;

    open spec fn view(&self) -> GameView {
        GameView {
            id: self.id.0,
            name: self.name@,
            admin: self.admin.0,
            active_users: user_ids(self.active_users@),
            pending_users: user_ids(self.pending_users@),
        }
    }
}

/// Copies a list of game ids into plain integers.
pub fn game_ids_of(v: &Vec<GameId>) -> (r: Vec<u64>)
    ensures
        r@ == game_ids(v@),
{
    let mut r: Vec<u64> = Vec::new();
    let mut i: usize = 0;
    while i < v.len()
        invariant
            i <= v.len(),
            r@ == game_ids(v@.take(i as int)),
        decreases v.len() - i,
    {
        r.push(v[i].0);
        i = i + 1;
        assert(game_ids(v@.take(i as int)) =~= game_ids(v@.take(i - 1)).push(v@[i - 1].0));
    }
    assert(v@.take(v.len() as int) =~= v@);
    r
}

/// Copies a list of user ids into plain integers.
pub fn user_ids_of(v: &Vec<UserId>) -> (r: Vec<i64>)
    ensures
        r@ == user_ids(v@),
{
    let mut r: Vec<i64> = Vec::new();
    let mut i: usize = 0;
    while i < v.len()
        invariant
            i <= v.len(),
            r@ == user_ids(v@.take(i as int)),
        decreases v.len() - i,
    {
        r.push(v[i].0);
        i = i + 1;
        assert(user_ids(v@.take(i as int)) =~= user_ids(v@.take(i - 1)).push(v@[i - 1].0));
    }
    assert(v@.take(v.len() as int) =~= v@);
    r
}

/// Wraps plain integers back into game ids.
pub fn game_ids_from(v: &Vec<u64>) -> (r: Vec<GameId>)
    ensures
        game_ids(r@) == v@,
{
    let mut r: Vec<GameId> = Vec::new();
    let mut i: usize = 0;
    while i < v.len()
        invariant
            i <= v.len(),
            r@.len() == i,
            forall|j: int| 0 <= j < i ==> #[trigger] r@[j].0 == v@[j],
        decreases v.len() - i,
    {
        r.push(GameId(v[i]));
        i = i + 1;
    }
    assert(game_ids(r@) =~= v@);
    r
}

/// Wraps plain integers back into user ids.
pub fn user_ids_from(v: &Vec<i64>) -> (r: Vec<UserId>)
    ensures
        user_ids(r@) == v@,
{
    let mut r: Vec<UserId> = Vec::new();
    let mut i: usize = 0;
    while i < v.len()
        invariant
            i <= v.len(),
            r@.len() == i,
            forall|j: int| 0 <= j < i ==> #[trigger] r@[j].0 == v@[j],
        decreases v.len() - i,
    {
        r.push(UserId(v[i]));
        i = i + 1;
    }
    assert(user_ids(r@) =~= v@);
    r
}

/// `s` with every occurrence of `x` left out.
pub open spec fn without<T>(s: Seq<T>, x: T) -> Seq<T>
    decreases s.len(),
{
    if s.len() == 0 {
        s
    } else {
        let r = without(s.drop_last(), x);
        if s.last() == x {
            r
        } else {
            r.push(s.last())
        }
    }
}

pub proof fn lemma_without_contains<T>(s: Seq<T>, x: T, y: T)
    ensures
        without(s, x).contains(y) <==> (s.contains(y) && y != x),
    decreases s.len(),
{
    broadcast use vstd::seq_lib::group_seq_properties;

    if s.len() > 0 {
        lemma_without_contains(s.drop_last(), x, y);
        assert(s =~= s.drop_last().push(s.last()));
    }
}

/// Leaving `x` out twice is leaving it out once.
pub proof fn lemma_without_twice<T>(s: Seq<T>, x: T)
    ensures
        without(without(s, x), x) == without(s, x),
    decreases s.len(),
{
    if s.len() > 0 {
        lemma_without_twice(s.drop_last(), x);
        let r = without(s.drop_last(), x);
        if s.last() != x {
            assert(r.push(s.last()).drop_last() =~= r);
        }
    }
}

/// The game ids of `v` without `g`.
pub fn games_without(v: &Vec<GameId>, g: GameId) -> (r: Vec<GameId>)
    ensures
        game_ids(r@) == without(game_ids(v@), g.0),
{
    let mut r: Vec<GameId> = Vec::new();
    let mut i: usize = 0;
    while i < v.len()
        invariant
            i <= v.len(),
            game_ids(r@) == without(game_ids(v@.take(i as int)), g.0),
        decreases v.len() - i,
    {
        let ghost before = r@;
        let ghost s = game_ids(v@.take(i + 1));
        assert(s.drop_last() =~= game_ids(v@.take(i as int)));
        assert(s.last() == v@[i as int].0);
        if v[i].0 != g.0 {
            r.push(v[i]);
            assert(game_ids(r@) =~= game_ids(before).push(v@[i as int].0));
        }
        i = i + 1;
    }
    assert(v@.take(v.len() as int) =~= v@);
    r
}

/// The user ids of `v` without `u`.
pub fn users_without(v: &Vec<UserId>, u: UserId) -> (r: Vec<UserId>)
    ensures
        user_ids(r@) == without(user_ids(v@), u.0),
{
    let mut r: Vec<UserId> = Vec::new();
    let mut i: usize = 0;
    while i < v.len()
        invariant
            i <= v.len(),
            user_ids(r@) == without(user_ids(v@.take(i as int)), u.0),
        decreases v.len() - i,
    {
        let ghost before = r@;
        let ghost s = user_ids(v@.take(i + 1));
        assert(s.drop_last() =~= user_ids(v@.take(i as int)));
        assert(s.last() == v@[i as int].0);
        if v[i].0 != u.0 {
            r.push(v[i]);
            assert(user_ids(r@) =~= user_ids(before).push(v@[i as int].0));
        }
        i = i + 1;
    }
    assert(v@.take(v.len() as int) =~= v@);
    r
}

/// Whether `g` occurs in `v`.
pub fn has_game(v: &Vec<GameId>, g: GameId) -> (r: bool)
    ensures
        r == game_ids(v@).contains(g.0),
{
    let mut i: usize = 0;
    while i < v.len()
        invariant
            i <= v.len(),
            forall|j: int| 0 <= j < i ==> v@[j].0 != g.0,
        decreases v.len() - i,
    {
        if v[i].0 == g.0 {
            assert(game_ids(v@)[i as int] == g.0);
            return true;
        }
        i = i + 1;
    }
    assert(!game_ids(v@).contains(g.0)) by {
        if game_ids(v@).contains(g.0) {
            let j = choose|j: int| 0 <= j < game_ids(v@).len() && game_ids(v@)[j] == g.0;
            assert(v@[j].0 == g.0);
        }
    }
    false
}

/// Whether `u` occurs in `v`.
pub fn has_user(v: &Vec<UserId>, u: UserId) -> (r: bool)
    ensures
        r == user_ids(v@).contains(u.0),
{
    let mut i: usize = 0;
    while i < v.len()
        invariant
            i <= v.len(),
            forall|j: int| 0 <= j < i ==> v@[j].0 != u.0,
        decreases v.len() - i,
    {
        if v[i].0 == u.0 {
            assert(user_ids(v@)[i as int] == u.0);
            return true;
        }
        i = i + 1;
    }
    assert(!user_ids(v@).contains(u.0)) by {
        if user_ids(v@).contains(u.0) {
            let j = choose|j: int| 0 <= j < user_ids(v@).len() && user_ids(v@)[j] == u.0;
            assert(v@[j].0 == u.0);
        }
    }
    false
}

pub proof fn lemma_game_ids_push(s: Seq<GameId>, g: GameId)
    ensures
        game_ids(s.push(g)) == game_ids(s).push(g.0),
{
    assert(game_ids(s.push(g)) =~= game_ids(s).push(g.0));
}

pub proof fn lemma_user_ids_push(s: Seq<UserId>, u: UserId)
    ensures
        user_ids(s.push(u)) == user_ids(s).push(u.0),
{
    assert(user_ids(s.push(u)) =~= user_ids(s).push(u.0));
}

pub proof fn lemma_push_no_duplicates<T>(s: Seq<T>, x: T)
    requires
        s.no_duplicates(),
        !s.contains(x),
    ensures
        s.push(x).no_duplicates(),
{
    let t = s.push(x);
    assert forall|i: int, j: int| 0 <= i < t.len() && 0 <= j < t.len() && i != j implies t[i] != t[j] by {
        if i == s.len() {
            assert(s[j] == t[j]);
        } else if j == s.len() {
            assert(s[i] == t[i]);
        }
    }
}

/// Leaving an element out keeps a list free of repeats.
pub proof fn lemma_without_no_duplicates<T>(s: Seq<T>, x: T)
    requires
        s.no_duplicates(),
    ensures
        without(s, x).no_duplicates(),
    decreases s.len(),
{
    if s.len() > 0 {
        let init = s.drop_last();
        assert(init.no_duplicates()) by {
            assert forall|i: int, j: int| 0 <= i < init.len() && 0 <= j < init.len() && i != j implies init[i] != init[j] by {
                assert(init[i] == s[i] && init[j] == s[j]);
            }
        }
        lemma_without_no_duplicates(init, x);
        if s.last() != x {
            lemma_without_contains(init, x, s.last());
            assert(!init.contains(s.last())) by {
                if init.contains(s.last()) {
                    let k = choose|k: int| 0 <= k < init.len() && init[k] == s.last();
                    assert(s[k] == s[s.len() - 1]);
                }
            }
            lemma_push_no_duplicates(without(init, x), s.last());
        }
    }
}

} // verus!
