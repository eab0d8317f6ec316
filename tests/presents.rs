use secret_santa::presents::distribute_presents;
use secret_santa::utils::UserId;

fn check(users: Vec<UserId>) {
    let pairs = distribute_presents(users.clone());
    assert_eq!(pairs.len(), users.len());
    for (k, (giver, receiver)) in pairs.iter().enumerate() {
        assert_eq!(*giver, users[k]);
        assert_ne!(giver, receiver);
    }
    let mut a: Vec<i64> = users.iter().map(|u| u.0).collect();
    let mut b: Vec<i64> = pairs.iter().map(|p| p.1 .0).collect();
    a.sort();
    b.sort();
    assert_eq!(a, b);
}

#[test]
fn two_users_swap() {
    let pairs = distribute_presents(vec![UserId(1), UserId(2)]);
    assert_eq!(pairs, vec![(UserId(1), UserId(2)), (UserId(2), UserId(1))]);
}

#[test]
fn derangements_of_several_sizes() {
    for n in 2..12 {
        for _ in 0..20 {
            check((0..n).map(|i| UserId(i * 7 - 20)).collect());
        }
    }
}
