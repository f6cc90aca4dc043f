//! The addresses at which a chain publishes its beacons.

use vstd::prelude::*;

verus! {

/// The character of a decimal digit.
pub open spec fn digit_char(digit: int) -> char {
    ((0x30 + digit) as u8) as char
}

/// A number in decimal, without leading zeros.
pub open spec fn decimal_text(n: nat) -> Seq<char>
    decreases n,
{
    if n < 10 {
        seq![digit_char(n as int)]
    } else {
        decimal_text(n / 10).push(digit_char((n % 10) as int))
    }
}

/// The address of the latest beacon of the chain `chain_hash`.
pub open spec fn latest_url_text(base_url: Seq<char>, chain_hash: Seq<char>) -> Seq<char> {
    base_url + "/"@ + chain_hash + "/public/latest"@
}

/// The address of the beacon of round `round` of the chain
/// `chain_hash`.
pub open spec fn round_url_text(base_url: Seq<char>, chain_hash: Seq<char>, round: u64) -> Seq<
    char,
> {
    base_url + "/"@ + chain_hash + "/public/"@ + decimal_text(round as nat)
}

/// The text of one decimal digit.
fn digit_text(digit: u64) -> (text: &'static str)
    requires
        digit < 10,
    ensures
        text@ == seq![digit_char(digit as int)],
{
    proof {
        reveal_strlit("0");
        reveal_strlit("1");
        reveal_strlit("2");
        reveal_strlit("3");
        reveal_strlit("4");
        reveal_strlit("5");
        reveal_strlit("6");
        reveal_strlit("7");
        reveal_strlit("8");
        reveal_strlit("9");
    }
    let text = if digit == 0 {
        "0"
    } else if digit == 1 {
        "1"
    } else if digit == 2 {
        "2"
    } else if digit == 3 {
        "3"
    } else if digit == 4 {
        "4"
    } else if digit == 5 {
        "5"
    } else if digit == 6 {
        "6"
    } else if digit == 7 {
        "7"
    } else if digit == 8 {
        "8"
    } else {
        "9"
    };
    assert(text@ =~= seq![digit_char(digit as int)]);
    text
}

/// Writes a number in decimal.
pub fn decimal_string(n: u64) -> (text: String)
    ensures
        text@ == decimal_text(n as nat),
    decreases n,
{
    if n < 10 {
        digit_text(n).to_owned()
    } else {
        let head = decimal_string(n / 10);
        let text = head.concat(digit_text(n % 10));
        assert(text@ =~= decimal_text(n as nat));
        text
    }
}

/// The address of the latest beacon of the chain `chain_hash` below
/// `base_url`.
pub fn latest_url(base_url: &str, chain_hash: &str) -> (url: String)
    ensures
        url@ == latest_url_text(base_url@, chain_hash@),
{
    base_url.to_owned().concat("/").concat(chain_hash).concat("/public/latest")
}

/// The address of the beacon of round `round` of the chain
/// `chain_hash` below `base_url`.
pub fn round_url(base_url: &str, chain_hash: &str, round: u64) -> (url: String)
    ensures
        url@ == round_url_text(base_url@, chain_hash@, round),
{
    let number = decimal_string(round);
    base_url.to_owned().concat("/").concat(chain_hash).concat("/public/").concat(number.as_str())
}

} // verus!
