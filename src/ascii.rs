//! The POSIX-style ASCII classes, such as `[[:alpha:]]`.

use crate::humanregex::{Ascii, HumanRegex, SymbolClass};
use vstd::prelude::*;

verus! {

/// The text of the ASCII class called `name`; `negated` puts the negation
/// marker in.
pub open spec fn ascii_class(name: Seq<char>, negated: bool) -> Seq<char> {
    "[[:"@ + (if negated {
        "^"@
    } else {
        Seq::<char>::empty()
    }) + name + ":]]"@
}

fn ascii_class_fragment(name: &str, negated: bool) -> (r: HumanRegex<SymbolClass<Ascii>>)
    ensures
        r@ == ascii_class(name@, negated),
{
    let text = if negated {
        String::from_str("[[:^")
    } else {
        let t = String::from_str("[[:");
        proof {
            reveal_strlit("[[:");
            reveal_strlit("[[:^");
            assert("[[:"@ =~= "[[:"@ + Seq::<char>::empty());
        }
        t
    };
    proof {
        reveal_strlit("[[:");
        reveal_strlit("[[:^");
        assert("[[:^"@ =~= "[[:"@ + "^"@) by {
            reveal_strlit("^");
        }
    }
    HumanRegex::from_text(text.concat(name).concat(":]]"))
}

/// Matches an alphanumeric character (`[0-9A-Za-z]`).
pub fn alphanumeric() -> (r: HumanRegex<SymbolClass<Ascii>>)
    ensures
        r@ == ascii_class("alnum"@, false),
{
    ascii_class_fragment("alnum", false)
}

/// Matches any character but an alphanumeric character.
pub fn non_alphanumeric() -> (r: HumanRegex<SymbolClass<Ascii>>)
    ensures
        r@ == ascii_class("alnum"@, true),
{
    ascii_class_fragment("alnum", true)
}

/// Matches an alphabetic character (`[A-Za-z]`).
pub fn alphabetic() -> (r: HumanRegex<SymbolClass<Ascii>>)
    ensures
        r@ == ascii_class("alpha"@, false),
{
    ascii_class_fragment("alpha", false)
}

/// Matches any character but an alphabetic character.
pub fn non_alphabetic() -> (r: HumanRegex<SymbolClass<Ascii>>)
    ensures
        r@ == ascii_class("alpha"@, true),
{
    ascii_class_fragment("alpha", true)
}

/// Matches a lower case letter (`[a-z]`).
pub fn lowercase() -> (r: HumanRegex<SymbolClass<Ascii>>)
    ensures
        r@ == ascii_class("lower"@, false),
{
    ascii_class_fragment("lower", false)
}

/// Matches any character but a lower case letter.
pub fn non_lowercase() -> (r: HumanRegex<SymbolClass<Ascii>>)
    ensures
        r@ == ascii_class("lower"@, true),
{
    ascii_class_fragment("lower", true)
}

/// Matches an upper case letter (`[A-Z]`).
pub fn uppercase() -> (r: HumanRegex<SymbolClass<Ascii>>)
    ensures
        r@ == ascii_class("upper"@, false),
{
    ascii_class_fragment("upper", false)
}

/// Matches any character but an upper case letter.
pub fn non_uppercase() -> (r: HumanRegex<SymbolClass<Ascii>>)
    ensures
        r@ == ascii_class("upper"@, true),
{
    ascii_class_fragment("upper", true)
}

/// Matches a hexadecimal digit (`[0-9A-Fa-f]`).
pub fn hexdigit() -> (r: HumanRegex<SymbolClass<Ascii>>)
    ensures
        r@ == ascii_class("xdigit"@, false),
{
    ascii_class_fragment("xdigit", false)
}

/// Matches any character but a hexadecimal digit.
pub fn non_hexdigit() -> (r: HumanRegex<SymbolClass<Ascii>>)
    ensures
        r@ == ascii_class("xdigit"@, true),
{
    ascii_class_fragment("xdigit", true)
}

/// Matches an ASCII character (`[\x00-\x7F]`).
pub fn ascii() -> (r: HumanRegex<SymbolClass<Ascii>>)
    ensures
        r@ == ascii_class("ascii"@, false),
{
    ascii_class_fragment("ascii", false)
}

/// Matches any character but an ASCII character.
pub fn non_ascii() -> (r: HumanRegex<SymbolClass<Ascii>>)
    ensures
        r@ == ascii_class("ascii"@, true),
{
    ascii_class_fragment("ascii", true)
}

/// Matches a blank, space or tab (`[\t ]`).
pub fn blank() -> (r: HumanRegex<SymbolClass<Ascii>>)
    ensures
        r@ == ascii_class("blank"@, false),
{
    ascii_class_fragment("blank", false)
}

/// Matches any character but a blank, space or tab.
pub fn non_blank() -> (r: HumanRegex<SymbolClass<Ascii>>)
    ensures
        r@ == ascii_class("blank"@, true),
{
    ascii_class_fragment("blank", true)
}

/// Matches a control character (`[\x00-\x1F\x7F]`).
pub fn control() -> (r: HumanRegex<SymbolClass<Ascii>>)
    ensures
        r@ == ascii_class("cntrl"@, false),
{
    ascii_class_fragment("cntrl", false)
}

/// Matches any character but a control character.
pub fn non_control() -> (r: HumanRegex<SymbolClass<Ascii>>)
    ensures
        r@ == ascii_class("cntrl"@, true),
{
    ascii_class_fragment("cntrl", true)
}

/// Matches a graphical character (`[!-~]`).
pub fn graphical() -> (r: HumanRegex<SymbolClass<Ascii>>)
    ensures
        r@ == ascii_class("graph"@, false),
{
    ascii_class_fragment("graph", false)
}

/// Matches any character but a graphical character.
pub fn non_graphical() -> (r: HumanRegex<SymbolClass<Ascii>>)
    ensures
        r@ == ascii_class("graph"@, true),
{
    ascii_class_fragment("graph", true)
}

/// Matches a printable character (`[ -~]`).
pub fn printable() -> (r: HumanRegex<SymbolClass<Ascii>>)
    ensures
        r@ == ascii_class("print"@, false),
{
    ascii_class_fragment("print", false)
}

/// Matches any character but a printable character.
pub fn non_printable() -> (r: HumanRegex<SymbolClass<Ascii>>)
    ensures
        r@ == ascii_class("print"@, true),
{
    ascii_class_fragment("print", true)
}

/// Matches a punctuation character (``[!-/:-@\[-`{-~]``).
pub fn punctuation() -> (r: HumanRegex<SymbolClass<Ascii>>)
    ensures
        r@ == ascii_class("punct"@, false),
{
    ascii_class_fragment("punct", false)
}

/// Matches any character but a punctuation character.
pub fn non_punctuation() -> (r: HumanRegex<SymbolClass<Ascii>>)
    ensures
        r@ == ascii_class("punct"@, true),
{
    ascii_class_fragment("punct", true)
}

} // verus!
