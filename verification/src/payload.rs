//! The text that a token is derived from: a list of integers as JSON.

use vstd::prelude::*;

verus! {

/// The decimal digits of `n`, the most significant first.
pub open spec fn digits(n: nat) -> Seq<char>
    decreases n,
{
    let last = seq!['0', '1', '2', '3', '4', '5', '6', '7', '8', '9'][(n % 10) as int];
    if n < 10 {
        seq![last]
    } else {
        digits(n / 10).push(last)
    }
}

/// `n` in decimal, with a minus sign where it is below zero.
pub open spec fn decimal(n: int) -> Seq<char> {
    if n < 0 {
        seq!['-'] + digits((-n) as nat)
    } else {
        digits(n as nat)
    }
}

/// The integers of `values` in decimal, with a comma between neighbours.
pub open spec fn comma_separated(values: Seq<i64>) -> Seq<char>
    decreases values.len(),
{
    if values.len() == 0 {
        Seq::empty()
    } else if values.len() == 1 {
        decimal(values[0] as int)
    } else {
        comma_separated(values.drop_last()) + seq![','] + decimal(values.last() as int)
    }
}

/// `values` as a JSON list without any blank.
pub open spec fn json_list(values: Seq<i64>) -> Seq<char> {
    seq!['['] + comma_separated(values) + seq![']']
}

/// Calls `serde_json::to_string` on the list. The text is the compact JSON
/// list of the integers in decimal. It is always there: the serializer
/// writes integers into memory, where it has nothing to fail on.
#[verifier::external_body]
pub(crate) fn to_json_text(values: &Vec<i64>) -> (text: Option<String>)
    ensures
        text is Some,
        text.unwrap()@ == json_list(values@),
{
    match serde_json::to_string(values) {
        Ok(text) => Some(text),
        Err(_) => None,
    }
}

} // verus!
