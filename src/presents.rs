//! Who gives a present to whom: a random pairing in which nobody draws
//! themselves.
use crate::utils::{user_ids, UserId};
use vstd::prelude::*;

verus! {

/// `receivers` holds the same ids as `givers`, each as often, and no position
/// holds the same id in both.
pub open spec fn is_derangement<T>(givers: Seq<T>, receivers: Seq<T>) -> bool {
    &&& receivers.len() == givers.len()
    &&& receivers.to_multiset() == givers.to_multiset()
    &&& forall|i: int| 0 <= i < givers.len() ==> givers[i] != receivers[i]
}

/// The receivers of a list of (giver, receiver) pairs.
pub open spec fn receivers_of(pairs: Seq<(UserId, UserId)>) -> Seq<UserId> {
    pairs.map_values(|p: (UserId, UserId)| p.1)
}

/// How many shuffles are drawn before the rotation is used instead.
const MAX_SHUFFLES: u64 = 0xffff_ffff_ffff_ffff;

/// Relies on rand's SliceRandom::shuffle with thread_rng: reorders `v` in place.
/// The order is random; the ids, and how often each occurs, stay.
#[verifier::external_body]
fn shuffle_ids(v: &mut Vec<UserId>)
    ensures
        final(v)@.len() == old(v)@.len(),
        final(v)@.to_multiset() == old(v)@.to_multiset(),
{
    rand::seq::SliceRandom::shuffle(v.as_mut_slice(), &mut rand::thread_rng())
}

pub(crate) fn copy_ids(v: &Vec<UserId>) -> (r: Vec<UserId>)
    ensures
        r@ == v@,
{
    let mut r: Vec<UserId> = Vec::new();
    let mut i: usize = 0;
    while i < v.len()
        invariant
            i <= v.len(),
            r@ == v@.take(i as int),
        decreases v.len() - i,
    {
        r.push(v[i]);
        i = i + 1;
        assert(r@ =~= v@.take(i as int));
    }
    assert(v@.take(v.len() as int) =~= v@);
    r
}

/// Whether no position holds the same id in `a` and `b`.
fn no_fixed_point(a: &Vec<UserId>, b: &Vec<UserId>) -> (r: bool)
    requires
        a.len() == b.len(),
    ensures
        r == forall|i: int| 0 <= i < a@.len() ==> a@[i] != b@[i],
{
    let mut i: usize = 0;
    while i < a.len()
        invariant
            a.len() == b.len(),
            i <= a.len(),
            forall|j: int| 0 <= j < i ==> a@[j] != b@[j],
        decreases a.len() - i,
    {
        if a[i] == b[i] {
            return false;
        }
        i = i + 1;
    }
    true
}

/// Each id of `users` followed by the next one, the last by the first.
fn rotation(users: &Vec<UserId>) -> (r: Vec<UserId>)
    requires
        users.len() >= 2,
        users@.no_duplicates(),
    ensures
        is_derangement(users@, r@),
{
    let n = users.len();
    let mut r: Vec<UserId> = Vec::new();
    let mut i: usize = 1;
    while i < n
        invariant
            n == users.len(),
            1 <= i <= n,
            r@ == users@.subrange(1, i as int),
        decreases n - i,
    {
        r.push(users[i]);
        i = i + 1;
        assert(r@ =~= users@.subrange(1, i as int));
    }
    r.push(users[0]);
    proof {
        let s = users@;
        assert(r@ =~= s.subrange(1, n as int) + seq![s[0]]);
        assert(s =~= seq![s[0]] + s.subrange(1, n as int));
        vstd::seq_lib::lemma_multiset_commutative(s.subrange(1, n as int), seq![s[0]]);
        vstd::seq_lib::lemma_multiset_commutative(seq![s[0]], s.subrange(1, n as int));
        assert(r@.to_multiset() =~= s.to_multiset());
        assert forall|i: int| 0 <= i < s.len() implies s[i] != r@[i] by {
            if i + 1 < n {
                assert(r@[i] == s[i + 1]);
                assert(s[i] != s[i + 1]);
            } else {
                assert(r@[i] == s[0]);
                assert(s[i] != s[0]);
            }
        }
    }
    r
}

/// Pairs each user, in the order given, with the user they give a present to.
/// The receivers are a random reordering of the users in which nobody draws
/// themselves: shuffles are drawn until one has no fixed point, which takes
/// about e draws on average. Should every draw up to `MAX_SHUFFLES` fail, which
/// does not happen in practice, each user gives to the next one in the list.
pub fn distribute_presents(users: Vec<UserId>) -> (r: Vec<(UserId, UserId)>)
    requires
        users@.len() >= 2,
        users@.no_duplicates(),
    ensures
        r@.len() == users@.len(),
        forall|i: int| 0 <= i < r@.len() ==> (#[trigger] r@[i]).0 == users@[i],
        is_derangement(users@, receivers_of(r@)),
{
    let mut receivers = rotation(&users);
    let mut draws: u64 = 0;
    while draws < MAX_SHUFFLES
        invariant
            users@.len() >= 2,
            is_derangement(users@, receivers@),
        ensures
            is_derangement(users@, receivers@),
        decreases MAX_SHUFFLES - draws,
    {
        let mut shuffled = copy_ids(&users);
        shuffle_ids(&mut shuffled);
        if no_fixed_point(&users, &shuffled) {
            receivers = shuffled;
            break;
        }
        draws = draws + 1;
    }
    let mut pairs: Vec<(UserId, UserId)> = Vec::new();
    let mut i: usize = 0;
    while i < users.len()
        invariant
            i <= users.len(),
            receivers.len() == users.len(),
            pairs@.len() == i,
            forall|j: int| 0 <= j < i ==> (#[trigger] pairs@[j]) == (users@[j], receivers@[j]),
        decreases users.len() - i,
    {
        pairs.push((users[i], receivers[i]));
        i = i + 1;
    }
    assert(receivers_of(pairs@) =~= receivers@);
    pairs
}

proof fn lemma_user_ids_count(s: Seq<UserId>, x: i64)
    ensures
        user_ids(s).to_multiset().count(x) == s.to_multiset().count(UserId(x)),
    decreases s.len(),
{
    broadcast use vstd::seq_lib::group_to_multiset_ensures;

    if s.len() == 0 {
        assert(user_ids(s) =~= Seq::empty());
    } else {
        let init = s.drop_last();
        lemma_user_ids_count(init, x);
        assert(s =~= init.push(s.last()));
        assert(user_ids(s) =~= user_ids(init).push(s.last().0));
    }
}

/// A derangement of user ids is one of their plain integers too.
pub proof fn lemma_derangement_ids(a: Seq<UserId>, b: Seq<UserId>)
    requires
        is_derangement(a, b),
    ensures
        is_derangement(user_ids(a), user_ids(b)),
{
    assert forall|x: i64| user_ids(b).to_multiset().count(x) == user_ids(a).to_multiset().count(x) by {
        lemma_user_ids_count(a, x);
        lemma_user_ids_count(b, x);
    }
    assert(user_ids(b).to_multiset() =~= user_ids(a).to_multiset());
    assert forall|i: int| 0 <= i < user_ids(a).len() implies user_ids(a)[i] != user_ids(b)[i] by {
        assert(a[i] != b[i]);
    }
}

} // verus!
