//! Repetition of a fragment. Counts are `u8`, at most 255: the engine parses
//! every such count, though a large count of a large fragment can still go
//! over its size limit when the whole pattern is compiled.

use crate::humanregex::{HumanRegex, HumanRegexError, Quantifier};
use vstd::prelude::*;

verus! {

/// The decimal digit for `d`, which is below ten.
pub open spec fn digit_char(d: nat) -> char {
    (d + 48) as char
}

/// `n` written in decimal, without leading zeros.
pub open spec fn decimal(n: nat) -> Seq<char>
    decreases n,
{
    if n < 10 {
        seq![digit_char(n)]
    } else {
        decimal(n / 10).push(digit_char(n % 10))
    }
}

/// `target` in a non-capturing group, ready for a repetition suffix.
pub open spec fn grouped(target: Seq<char>) -> Seq<char> {
    "(?:"@ + target + ")"@
}

fn digit_of(d: u8) -> (r: char)
    requires
        d < 10,
    ensures
        r == digit_char(d as nat),
{
    (d + 48) as char
}

fn decimal_text(n: u8) -> (r: String)
    ensures
        r@ == decimal(n as nat),
{
    let mut s = String::new();
    if n >= 100 {
        s.push(digit_of(n / 100));
    }
    if n >= 10 {
        s.push(digit_of((n / 10) % 10));
    }
    s.push(digit_of(n % 10));
    proof {
        let k = n as nat;
        if k >= 100 {
            assert(k / 10 / 10 == k / 100);
            assert(decimal(k / 100) == seq![digit_char(k / 100)]);
            assert(decimal(k / 10) == decimal(k / 100).push(digit_char((k / 10) % 10)));
        } else if k >= 10 {
            assert(decimal(k / 10) == seq![digit_char(k / 10)]);
        }
        assert(s@ =~= decimal(k));
    }
    s
}

fn grouped_text(target: &str) -> (r: String)
    ensures
        r@ == grouped(target@),
{
    String::from_str("(?:").concat(target).concat(")")
}

/// Matches `target` at least `n` times.
pub fn at_least<T>(n: u8, target: HumanRegex<T>) -> (r: HumanRegex<Quantifier>)
    ensures
        r@ == grouped(target@) + "{"@ + decimal(n as nat) + ",}"@,
{
    let count = decimal_text(n);
    let text = grouped_text(target.as_str()).concat("{").concat(count.as_str()).concat(",}");
    HumanRegex::from_text(text)
}

/// Matches `target` at least `n` and at most `m` times. Fails with
/// `InvalidRepetitionRange` when `n` is above `m`.
pub fn between<T>(n: u8, m: u8, target: HumanRegex<T>) -> (r: Result<
    HumanRegex<Quantifier>,
    HumanRegexError,
>)
    ensures
        r is Err <==> n > m,
        r is Err ==> r->Err_0 == HumanRegexError::InvalidRepetitionRange,
        r is Ok ==> r->Ok_0@ == grouped(target@) + "{"@ + decimal(n as nat) + ","@ + decimal(
            m as nat,
        ) + "}"@,
{
    if n > m {
        return Err(HumanRegexError::InvalidRepetitionRange);
    }
    let low = decimal_text(n);
    let high = decimal_text(m);
    let text = grouped_text(target.as_str()).concat("{").concat(low.as_str()).concat(",").concat(
        high.as_str(),
    ).concat("}");
    Ok(HumanRegex::from_text(text))
}

/// Matches `target` one or more times.
pub fn one_or_more<T>(target: HumanRegex<T>) -> (r: HumanRegex<Quantifier>)
    ensures
        r@ == grouped(target@) + "+"@,
{
    HumanRegex::from_text(grouped_text(target.as_str()).concat("+"))
}

/// Matches `target` any number of times, none included.
pub fn zero_or_more<T>(target: HumanRegex<T>) -> (r: HumanRegex<Quantifier>)
    ensures
        r@ == grouped(target@) + "*"@,
{
    HumanRegex::from_text(grouped_text(target.as_str()).concat("*"))
}

/// Matches `target` once or not at all.
pub fn zero_or_one<T>(target: HumanRegex<T>) -> (r: HumanRegex<Quantifier>)
    ensures
        r@ == grouped(target@) + "?"@,
{
    HumanRegex::from_text(grouped_text(target.as_str()).concat("?"))
}

/// Matches `target` exactly `n` times.
pub fn exactly<T>(n: u8, target: HumanRegex<T>) -> (r: HumanRegex<Quantifier>)
    ensures
        r@ == grouped(target@) + "{"@ + decimal(n as nat) + "}"@,
{
    let count = decimal_text(n);
    let text = grouped_text(target.as_str()).concat("{").concat(count.as_str()).concat("}");
    HumanRegex::from_text(text)
}

} // verus!
