//! Seeds: the strings that name the tests of a challenge.
//!
//! An example seed comes from the evaluator. A static seed is derived from
//! the challenge's identifier and an index, so that it is the same on every
//! run. A random seed is a fresh identifier, written as text.

use vstd::prelude::*;
use vstd::string::*;

verus! {

/// The character of a decimal digit.
pub open spec fn digit(n: int) -> char {
    (n + 48) as char
}

/// A number written in decimal, without leading zeros.
pub open spec fn decimal_text(n: nat) -> Seq<char>
    decreases n,
{
    if n < 10 {
        seq![digit(n as int)]
    } else {
        decimal_text(n / 10).push(digit((n % 10) as int))
    }
}

/// The character of a hexadecimal digit, in lower case.
pub open spec fn hex_digit(n: int) -> char {
    if n < 10 {
        (n + 48) as char
    } else {
        (n + 87) as char
    }
}

/// Sixteen to the power `e`.
pub open spec fn pow16(e: nat) -> int
    decreases e,
{
    if e == 0 {
        1
    } else {
        16 * pow16((e - 1) as nat)
    }
}

/// The `k`-th hexadecimal digit of a 128-bit identifier, the most
/// significant being the one with `k == 0`.
pub open spec fn nibble(id: u128, k: int) -> int {
    (id as int / pow16((31 - k) as nat)) % 16
}

/// How many hyphens stand before position `p` of an identifier's text.
pub open spec fn hyphens_before(p: int) -> int {
    if p > 23 {
        4
    } else if p > 18 {
        3
    } else if p > 13 {
        2
    } else if p > 8 {
        1
    } else {
        0
    }
}

/// An identifier as text: its 32 hexadecimal digits in lower case, in
/// groups of 8, 4, 4, 4 and 12 with a hyphen between two groups.
pub open spec fn hyphenated(id: u128) -> Seq<char> {
    Seq::new(
        36,
        |p: int|
            if p == 8 || p == 13 || p == 18 || p == 23 {
                '-'
            } else {
                hex_digit(nibble(id, p - hyphens_before(p)))
            },
    )
}

/// The identifier is one that is drawn at random: its version digit is 4
/// and its variant bits are `10`.
pub open spec fn is_random_id(id: u128) -> bool {
    nibble(id, 12) == 4 && nibble(id, 16) / 4 == 2
}

/// The static seed with this index of the challenge with this identifier.
pub open spec fn static_seed_text(index: u8, challenge_id: u128) -> Seq<char> {
    "_static_"@ + decimal_text(index as nat) + "_"@ + hyphenated(challenge_id)
}

/// `uuid::Uuid::from_u128` and the `to_string` of the identifier it gives.
/// The text is the hyphenated lower-case form, which is what `Uuid` writes
/// through `Display`.
#[verifier::external_body]
pub(crate) fn id_text(id: u128) -> (s: String)
    ensures
        s@ == hyphenated(id),
{
    uuid::Uuid::from_u128(id).to_string()
}

/// `uuid::Uuid::new_v4`, as the 128-bit number that `as_u128` gives. Which
/// identifier comes is left to chance; its version and variant are fixed.
#[verifier::external_body]
pub(crate) fn random_id() -> (id: u128)
    ensures
        is_random_id(id),
{
    uuid::Uuid::new_v4().as_u128()
}

/// One decimal digit as a string.
fn digit_str(d: u8) -> (s: &'static str)
    requires
        d < 10,
    ensures
        s@ == seq![digit(d as int)],
{
    proof {
        reveal_strlit("0");
        reveal_strlit("1");
        reveal_strlit("2");
        reveal_strlit("3");
        reveal_strlit("4");
        reveal_strlit("5");
        reveal_strlit("6");
        reveal_strlit("7");
        reveal_strlit("8");
        reveal_strlit("9");
    }
    let s = match d {
        0 => "0",
        1 => "1",
        2 => "2",
        3 => "3",
        4 => "4",
        5 => "5",
        6 => "6",
        7 => "7",
        8 => "8",
        _ => "9",
    };
    s
}

/// Writes a byte in decimal.
pub fn decimal(n: u8) -> (s: String)
    ensures
        s@ == decimal_text(n as nat),
{
    let units: u8 = n % 10;
    let tens: u8 = (n / 10) % 10;
    let hundreds: u8 = n / 100;
    let mut s = String::new();
    if hundreds > 0 {
        s.append(digit_str(hundreds));
    }
    if hundreds > 0 || tens > 0 {
        s.append(digit_str(tens));
    }
    s.append(digit_str(units));
    proof {
        reveal_with_fuel(decimal_text, 3);
    }
    s
}

/// The static seed with this index of the challenge with this identifier:
/// `_static_`, the index in decimal, `_`, and the identifier as text.
pub fn static_seed(index: u8, challenge_id: u128) -> (s: String)
    ensures
        s@ == static_seed_text(index, challenge_id),
{
    let mut s = String::from_str("_static_");
    let number = decimal(index);
    s.append(number.as_str());
    s.append("_");
    let id = id_text(challenge_id);
    s.append(id.as_str());
    s
}

/// A fresh random seed: the text of an identifier drawn at random.
pub fn random_seed() -> (s: String)
    ensures
        exists|id: u128| is_random_id(id) && s@ == hyphenated(id),
{
    let id = random_id();
    id_text(id)
}

} // verus!
