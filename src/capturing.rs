//! Capture groups, numbered and named.

use crate::humanregex::{HumanRegex, HumanRegexError, SymbolChain};
use vstd::prelude::*;

verus! {

/// Whether Unicode gives `c` the Alphabetic property.
pub uninterp spec fn unicode_alphabetic(c: char) -> bool;

/// Whether `c` is alphabetic or numeric in Unicode's sense.
pub uninterp spec fn unicode_alphanumeric(c: char) -> bool;

/// Relies on `char::is_alphabetic`, which looks `c` up in Unicode's
/// Alphabetic property.
pub assume_specification[ char::is_alphabetic ](c: char) -> (r: bool)
    ensures
        r == unicode_alphabetic(c),
;

/// Relies on `char::is_alphanumeric`, which tells whether `c` is alphabetic
/// or numeric.
pub assume_specification[ char::is_alphanumeric ](c: char) -> (r: bool)
    ensures
        r == unicode_alphanumeric(c),
;

/// A character that may follow the first one in a group name.
pub open spec fn name_char(c: char) -> bool {
    c == '_' || c == '.' || c == '[' || c == ']' || unicode_alphanumeric(c)
}

/// The group names that the pattern language accepts: not empty, starting
/// with an underscore or a letter, then underscores, dots, square brackets,
/// letters and digits.
pub open spec fn valid_group_name(name: Seq<char>) -> bool {
    &&& name.len() > 0
    &&& (name[0] == '_' || unicode_alphabetic(name[0]))
    &&& forall|i: int| 1 <= i < name.len() ==> name_char(#[trigger] name[i])
}

fn is_valid_group_name(name: &str) -> (r: bool)
    ensures
        r == valid_group_name(name@),
{
    let n = name.unicode_len();
    if n == 0 {
        return false;
    }
    let first = name.get_char(0);
    if !(first == '_' || first.is_alphabetic()) {
        return false;
    }
    let mut i: usize = 1;
    while i < n
        invariant
            1 <= i <= n,
            n == name@.len(),
            forall|j: int| 1 <= j < i ==> name_char(#[trigger] name@[j]),
        decreases n - i,
    {
        let c = name.get_char(i);
        if !(c == '_' || c == '.' || c == '[' || c == ']' || c.is_alphanumeric()) {
            return false;
        }
        i = i + 1;
    }
    true
}

/// Puts `target` in a numbered capture group. Groups are numbered by the
/// position of their opening parenthesis in the final pattern.
pub fn capture<T>(target: HumanRegex<T>) -> (r: HumanRegex<SymbolChain>)
    ensures
        r@ == "("@ + target@ + ")"@,
{
    HumanRegex::from_text(String::from_str("(").concat(target.as_str()).concat(")"))
}

/// Puts `target` in a capture group called `name`. Fails with
/// `InvalidGroupName` when the pattern language does not accept the name.
pub fn named_capture<T>(target: HumanRegex<T>, name: &str) -> (r: Result<
    HumanRegex<SymbolChain>,
    HumanRegexError,
>)
    ensures
        r is Err <==> !valid_group_name(name@),
        r is Err ==> r->Err_0 == HumanRegexError::InvalidGroupName,
        r is Ok ==> r->Ok_0@ == "(?P<"@ + name@ + ">"@ + target@ + ")"@,
{
    if !is_valid_group_name(name) {
        return Err(HumanRegexError::InvalidGroupName);
    }
    let text = String::from_str("(?P<").concat(name).concat(">").concat(target.as_str()).concat(
        ")",
    );
    Ok(HumanRegex::from_text(text))
}

} // verus!
