//! Literal text, and the escape hatch for raw pattern text.

use crate::humanregex::{HumanRegex, LiteralSymbolChain, SymbolChain};
use vstd::prelude::*;

verus! {

/// The characters that carry a meaning of their own in the pattern language.
pub open spec fn is_meta(c: char) -> bool {
    c == '\\' || c == '.' || c == '+' || c == '*' || c == '?' || c == '(' || c == ')' || c
        == '|' || c == '[' || c == ']' || c == '{' || c == '}' || c == '^' || c == '$' || c
        == '#' || c == '&' || c == '-' || c == '~'
}

/// One character written so that it stands for itself.
pub open spec fn escape_char(c: char) -> Seq<char> {
    if is_meta(c) {
        seq!['\\', c]
    } else {
        seq![c]
    }
}

/// `s` with a backslash put in front of every meta character.
pub open spec fn escaped(s: Seq<char>) -> Seq<char>
    decreases s.len(),
{
    if s.len() == 0 {
        seq![]
    } else {
        escape_char(s[0]) + escaped(s.skip(1))
    }
}

/// The literal string that the pattern `p` matches, when `p` is made only of
/// characters without a special meaning and of escaped meta characters;
/// `None` when some character of `p` is still active.
pub open spec fn literal_of(p: Seq<char>) -> Option<Seq<char>>
    decreases p.len(),
{
    if p.len() == 0 {
        Some(seq![])
    } else if p[0] == '\\' {
        if p.len() >= 2 && is_meta(p[1]) {
            match literal_of(p.skip(2)) {
                Some(rest) => Some(seq![p[1]] + rest),
                None => None,
            }
        } else {
            None
        }
    } else if is_meta(p[0]) {
        None
    } else {
        match literal_of(p.skip(1)) {
            Some(rest) => Some(seq![p[0]] + rest),
            None => None,
        }
    }
}

/// Relies on `regex::escape`: every meta character of the pattern language
/// gets a backslash in front of it, every other character is copied as is.
#[verifier::external_body]
pub(crate) fn escape(text: &str) -> (r: String)
    ensures
        r@ == escaped(text@),
{
    regex::escape(text)
}

/// A fragment that matches `literal` literally; every meta character in it is
/// escaped.
pub fn text(literal: &str) -> (r: HumanRegex<LiteralSymbolChain>)
    ensures
        r@ == escaped(literal@),
{
    HumanRegex::from_text(escape(literal))
}

/// Escapes each of `options`, in order, for use in an alternation or a set.
pub fn escape_all(options: &[&str]) -> (r: Vec<HumanRegex<LiteralSymbolChain>>)
    ensures
        r.len() == options.len(),
        forall|i: int| 0 <= i < r.len() ==> (#[trigger] r[i])@ == escaped(options[i]@),
{
    let mut out: Vec<HumanRegex<LiteralSymbolChain>> = Vec::new();
    let mut i: usize = 0;
    while i < options.len()
        invariant
            i <= options.len(),
            out.len() == i,
            forall|j: int| 0 <= j < i ==> (#[trigger] out[j])@ == escaped(options[j]@),
        decreases options.len() - i,
    {
        out.push(text(options[i]));
        i = i + 1;
    }
    out
}

/// Pattern text taken as it is, inside a non-capturing group. Nothing checks
/// it: text that is not a complete expression (an unbalanced parenthesis, say)
/// makes a fragment that is not self-contained, and the fault only shows when
/// the whole pattern is compiled.
pub fn nonescaped_text(pattern: &str) -> (r: HumanRegex<SymbolChain>)
    ensures
        r@ == "(?:"@ + pattern@ + ")"@,
{
    HumanRegex::from_text(String::from_str("(?:").concat(pattern).concat(")"))
}

/// Escaping is total and exact: the escaped form of any text is a pattern with
/// no active meta character, and the one string it matches is the text itself.
pub proof fn literal_matches_itself(t: Seq<char>)
    ensures
        literal_of(escaped(t)) == Some(t),
    decreases t.len(),
{
    if t.len() > 0 {
        let rest = t.skip(1);
        literal_matches_itself(rest);
        let p = escaped(t);
        let head = escape_char(t[0]);
        assert(p == head + escaped(rest));
        if is_meta(t[0]) {
            assert(p.skip(2) =~= escaped(rest));
        } else {
            assert(p.skip(1) =~= escaped(rest));
        }
        assert(seq![t[0]] + rest =~= t);
    }
}

} // verus!
