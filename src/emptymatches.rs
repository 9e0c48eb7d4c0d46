//! Anchors and boundaries: classes that match a position, not a character.

use crate::humanregex::{HumanRegex, Standard, SymbolClass};
use vstd::prelude::*;

verus! {

/// Matches at a word boundary (`\b`).
pub fn word_boundary() -> (r: HumanRegex<SymbolClass<Standard>>)
    ensures
        r@ == "\\b"@,
{
    HumanRegex::from_text(String::from_str("\\b"))
}

/// Matches anywhere but at a word boundary (`\B`).
pub fn non_word_boundary() -> (r: HumanRegex<SymbolClass<Standard>>)
    ensures
        r@ == "\\B"@,
{
    HumanRegex::from_text(String::from_str("\\B"))
}

/// Matches at the beginning of the text, or of a line in multi-line mode
/// (`^`).
pub fn beginning() -> (r: HumanRegex<SymbolClass<Standard>>)
    ensures
        r@ == "^"@,
{
    HumanRegex::from_text(String::from_str("^"))
}

/// Matches at the end of the text, or of a line in multi-line mode (`$`).
pub fn end() -> (r: HumanRegex<SymbolClass<Standard>>)
    ensures
        r@ == "$"@,
{
    HumanRegex::from_text(String::from_str("$"))
}

/// Matches at the beginning of the text only, even in multi-line mode
/// (`\A`).
pub fn beginning_of_text() -> (r: HumanRegex<SymbolClass<Standard>>)
    ensures
        r@ == "\\A"@,
{
    HumanRegex::from_text(String::from_str("\\A"))
}

/// Matches at the end of the text only, even in multi-line mode (`\z`).
pub fn end_of_text() -> (r: HumanRegex<SymbolClass<Standard>>)
    ensures
        r@ == "\\z"@,
{
    HumanRegex::from_text(String::from_str("\\z"))
}

} // verus!
