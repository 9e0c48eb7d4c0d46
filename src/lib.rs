//! Building regular expressions out of small, typed fragments.
//!
//! Every fragment carries its text together with a category marker. The
//! category decides which combinators accept it: only single-character
//! classes can be intersected or negated, only a fresh quantifier can be made
//! lazy, and so on.

pub mod ascii;
pub mod capturing;
pub mod direct;
pub mod emptymatches;
pub mod flags;
pub mod humanregex;
pub mod logical;
pub mod repetitions;
pub mod shorthand;

pub use direct::{escape_all, nonescaped_text, text};
pub use humanregex::{
    Ascii, Custom, HumanRegex, HumanRegexError, LiteralSymbolChain, Quantifier, Standard, SymbolChain, SymbolClass,
};
pub use shorthand::{
    any, digit, non_digit, non_unicode_category, non_unicode_script, non_whitespace, non_word,
    none, unicode_category, unicode_script, whitespace, within_range, within_set, without_range,
    word, UnicodeCategory, UnicodeScript,
};
pub use logical::{and, or, subtract, xor};
pub use repetitions::{at_least, between, exactly, one_or_more, zero_or_more, zero_or_one};
pub use ascii::{
    alphabetic, alphanumeric, ascii, blank, control, graphical, hexdigit, lowercase,
    non_alphabetic, non_alphanumeric, non_ascii, non_blank, non_control, non_graphical,
    non_hexdigit, non_lowercase, non_printable, non_punctuation, non_uppercase, printable,
    punctuation, uppercase,
};
pub use capturing::{capture, named_capture};
pub use emptymatches::{
    beginning, beginning_of_text, end, end_of_text, non_word_boundary, word_boundary,
};
pub use flags::{
    case_insensitive, disable_unicode, dot_matches_newline_too, ignore_whitespace_and_comments,
    multi_line_mode,
};
