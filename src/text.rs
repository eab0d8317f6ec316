//! Decimal numerals: how ids are read from a message and written into one.
use vstd::prelude::*;

verus! {

pub open spec fn is_digit(c: char) -> bool {
    '0' <= c && c <= '9'
}

pub open spec fn digit_value(c: char) -> int {
    c as int - '0' as int
}

/// The digit that stands for `d`, for `d < 10`.
pub open spec fn digit_char(d: nat) -> char {
    seq!['0', '1', '2', '3', '4', '5', '6', '7', '8', '9'][d as int]
}

/// The value of a string of decimal digits.
pub open spec fn digits_value(s: Seq<char>) -> int
    decreases s.len(),
{
    if s.len() == 0 {
        0
    } else {
        10 * digits_value(s.drop_last()) + digit_value(s.last())
    }
}

/// One digit or more, and nothing else.
pub open spec fn all_digits(s: Seq<char>) -> bool {
    s.len() > 0 && forall|i: int| 0 <= i < s.len() ==> is_digit(#[trigger] s[i])
}

/// The value of a numeral as Rust's integer parsing reads it: digits after an
/// optional `+`, or, where `signed`, after an optional `-` too.
pub open spec fn numeral_value(s: Seq<char>, signed: bool) -> Option<int> {
    if s.len() > 0 && s[0] == '+' && all_digits(s.drop_first()) {
        Some(digits_value(s.drop_first()))
    } else if signed && s.len() > 0 && s[0] == '-' && all_digits(s.drop_first()) {
        Some(-digits_value(s.drop_first()))
    } else if all_digits(s) {
        Some(digits_value(s))
    } else {
        None
    }
}

/// The shortest decimal numeral of `n`.
pub open spec fn decimal(n: nat) -> Seq<char>
    decreases n,
{
    if n < 10 {
        seq![digit_char(n)]
    } else {
        decimal(n / 10).push(digit_char(n % 10))
    }
}

/// The decimal numeral of `v`, with a `-` where it is negative.
pub open spec fn signed_decimal(v: int) -> Seq<char> {
    if v < 0 {
        seq!['-'] + decimal((-v) as nat)
    } else {
        decimal(v as nat)
    }
}

/// Relies on `str::parse::<u64>`: digits after an optional `+`, with a value
/// that fits.
#[verifier::external_body]
pub(crate) fn parse_u64(s: &str) -> (r: Option<u64>)
    ensures
        r is Some <==> (numeral_value(s@, false) is Some && numeral_value(s@, false)->0
            <= u64::MAX),
        r matches Some(v) ==> v as int == numeral_value(s@, false)->0,
{
    s.parse::<u64>().ok()
}

/// Relies on `str::parse::<i64>`: digits after an optional `+` or `-`, with a
/// value that fits.
#[verifier::external_body]
pub(crate) fn parse_i64(s: &str) -> (r: Option<i64>)
    ensures
        r is Some <==> (numeral_value(s@, true) is Some && i64::MIN <= numeral_value(
            s@,
            true,
        )->0 <= i64::MAX),
        r matches Some(v) ==> v as int == numeral_value(s@, true)->0,
{
    s.parse::<i64>().ok()
}

/// Relies on `u64`'s `Display`: the shortest decimal numeral.
#[verifier::external_body]
pub(crate) fn u64_text(v: u64) -> (r: String)
    ensures
        r@ == decimal(v as nat),
{
    v.to_string()
}

/// Relies on `i64`'s `Display`: the shortest decimal numeral, with a `-` where
/// the value is negative.
#[verifier::external_body]
pub(crate) fn i64_text(v: i64) -> (r: String)
    ensures
        r@ == signed_decimal(v as int),
{
    v.to_string()
}

/// Reads a game id from a message: the numeral of a `u64`.
pub fn parse_game_id(text: &str) -> (r: Option<crate::utils::GameId>)
    ensures
        r is Some <==> (numeral_value(text@, false) is Some && numeral_value(text@, false)->0
            <= u64::MAX),
        r matches Some(g) ==> g.0 as int == numeral_value(text@, false)->0,
{
    match parse_u64(text) {
        Some(v) => Some(crate::utils::GameId(v)),
        None => None,
    }
}

/// Reads a user id from a message: the numeral of an `i64`.
pub fn parse_user_id(text: &str) -> (r: Option<crate::utils::UserId>)
    ensures
        r is Some <==> (numeral_value(text@, true) is Some && i64::MIN <= numeral_value(
            text@,
            true,
        )->0 <= i64::MAX),
        r matches Some(u) ==> u.0 as int == numeral_value(text@, true)->0,
{
    match parse_i64(text) {
        Some(v) => Some(crate::utils::UserId(v)),
        None => None,
    }
}

} // verus!
