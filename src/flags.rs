//! Flags that hold inside one fragment only.

use crate::humanregex::{HumanRegex, SymbolChain};
use vstd::prelude::*;

verus! {

/// `target` in a group where the flags `flags` hold, and only there.
pub open spec fn flag_group(flags: Seq<char>, target: Seq<char>) -> Seq<char> {
    "(?"@ + flags + ":"@ + target + ")"@
}

fn flag_group_text(flags: &str, target: &str) -> (r: String)
    ensures
        r@ == flag_group(flags@, target@),
{
    String::from_str("(?").concat(flags).concat(":").concat(target).concat(")")
}

/// Letters in `target` match in either case.
pub fn case_insensitive<T>(target: HumanRegex<T>) -> (r: HumanRegex<SymbolChain>)
    ensures
        r@ == flag_group("i"@, target@),
{
    HumanRegex::from_text(flag_group_text("i", target.as_str()))
}

/// In `target`, `^` and `$` match at the beginning and end of each line.
pub fn multi_line_mode<T>(target: HumanRegex<T>) -> (r: HumanRegex<SymbolChain>)
    ensures
        r@ == flag_group("m"@, target@),
{
    HumanRegex::from_text(flag_group_text("m", target.as_str()))
}

/// In `target`, `.` matches a line feed too.
pub fn dot_matches_newline_too<T>(target: HumanRegex<T>) -> (r: HumanRegex<SymbolChain>)
    ensures
        r@ == flag_group("s"@, target@),
{
    HumanRegex::from_text(flag_group_text("s", target.as_str()))
}

/// In `target`, classes and case folding are limited to ASCII.
pub fn disable_unicode<T>(target: HumanRegex<T>) -> (r: HumanRegex<SymbolChain>)
    ensures
        r@ == flag_group("-u"@, target@),
{
    HumanRegex::from_text(flag_group_text("-u", target.as_str()))
}

/// In `target`, whitespace is ignored and `#` starts a comment.
pub fn ignore_whitespace_and_comments<T>(target: HumanRegex<T>) -> (r: HumanRegex<SymbolChain>)
    ensures
        r@ == flag_group("x"@, target@),
{
    HumanRegex::from_text(flag_group_text("x", target.as_str()))
}

} // verus!
