//! Alternation, the algebra of character classes, and negation.

use crate::humanregex::{
    Ascii, Custom, HumanRegex, HumanRegexError, LiteralSymbolChain, Standard, SymbolChain,
    SymbolClass,
};
use crate::shorthand::{any, any_text, none, none_text};
use std::ops::{BitAnd, BitOr, Not};
use vstd::prelude::*;

verus! {

/// The alternatives `options`, separated by `|`, first to last.
pub open spec fn joined(options: Seq<Seq<char>>) -> Seq<char>
    decreases options.len(),
{
    if options.len() == 0 {
        seq![]
    } else if options.len() == 1 {
        options[0]
    } else {
        joined(options.drop_last()) + "|"@ + options.last()
    }
}

/// The texts of a list of fragments.
pub open spec fn texts<T>(fragments: Seq<HumanRegex<T>>) -> Seq<Seq<char>> {
    fragments.map_values(|f: HumanRegex<T>| f@)
}

/// Matches any one of `expressions`; the earlier alternative is preferred.
/// Fails with `EmptyAlternation` when there is none.
///
/// To join expressions of different categories use `|`.
pub fn or<T>(expressions: &[HumanRegex<T>]) -> (r: Result<HumanRegex<SymbolChain>, HumanRegexError>)
    ensures
        r is Err <==> expressions@.len() == 0,
        r is Err ==> r->Err_0 == HumanRegexError::EmptyAlternation,
        r is Ok ==> r->Ok_0@ == "(?:"@ + joined(texts(expressions@)) + ")"@,
{
    if expressions.len() == 0 {
        return Err(HumanRegexError::EmptyAlternation);
    }
    let ghost all = texts(expressions@);
    let mut acc = expressions[0].to_string();
    let mut i: usize = 1;
    assert(all.take(1) =~= seq![all[0]]);
    while i < expressions.len()
        invariant
            1 <= i <= expressions.len(),
            all == texts(expressions@),
            acc@ == joined(all.take(i as int)),
        decreases expressions.len() - i,
    {
        acc = acc.concat("|").concat(expressions[i].as_str());
        assert(all.take(i + 1).drop_last() =~= all.take(i as int));
        i = i + 1;
    }
    assert(all.take(i as int) =~= all);
    Ok(HumanRegex::from_text(String::from_str("(?:").concat(acc.as_str()).concat(")")))
}

/// Either of two expressions of any categories; the left one is preferred.
impl<T, U> BitOr<HumanRegex<U>> for HumanRegex<T> {
    type Output = HumanRegex<SymbolChain>;

    fn bitor(self, rhs: HumanRegex<U>) -> (r: HumanRegex<SymbolChain>)
        ensures
            r@ == "(?:"@ + self@ + "|"@ + rhs@ + ")"@,
    {
        let text = String::from_str("(?:").concat(self.as_str()).concat("|").concat(
            rhs.as_str(),
        ).concat(")");
        HumanRegex::from_text(text)
    }
}

// What `|` returns is stated by the ensures of `bitor`, over the view.
impl<T, U> vstd::std_specs::ops::BitOrSpecImpl<HumanRegex<U>> for HumanRegex<T> {
    open spec fn obeys_bitor_spec() -> bool {
        false
    }

    open spec fn bitor_req(self, rhs: HumanRegex<U>) -> bool {
        true
    }

    open spec fn bitor_spec(self, rhs: HumanRegex<U>) -> HumanRegex<SymbolChain> {
        choose|r: HumanRegex<SymbolChain>| #[trigger] r@ == "(?:"@ + self@ + "|"@ + rhs@ + ")"@
    }
}

/// The bracket expression that combines two classes with the set operator `op`.
pub open spec fn class_operation(lhs: Seq<char>, op: Seq<char>, rhs: Seq<char>) -> Seq<char> {
    "["@ + lhs + op + rhs + "]"@
}

fn class_operation_text(lhs: &str, op: &str, rhs: &str) -> (r: String)
    ensures
        r@ == class_operation(lhs@, op@, rhs@),
{
    String::from_str("[").concat(lhs).concat(op).concat(rhs).concat("]")
}

/// Symmetric difference of two classes: a character in exactly one of them.
pub fn xor<T, U>(lhs: HumanRegex<SymbolClass<T>>, rhs: HumanRegex<SymbolClass<U>>) -> (r:
    HumanRegex<SymbolClass<Custom>>)
    ensures
        r@ == class_operation(lhs@, "~~"@, rhs@),
{
    HumanRegex::from_text(class_operation_text(lhs.as_str(), "~~", rhs.as_str()))
}

/// Intersection of two classes: a character in both of them.
pub fn and<T, U>(lhs: HumanRegex<SymbolClass<T>>, rhs: HumanRegex<SymbolClass<U>>) -> (r:
    HumanRegex<SymbolClass<Custom>>)
    ensures
        r@ == class_operation(lhs@, "&&"@, rhs@),
{
    lhs & rhs
}

/// Intersection of two classes, as `&`.
impl<T, U> BitAnd<HumanRegex<SymbolClass<U>>> for HumanRegex<SymbolClass<T>> {
    type Output = HumanRegex<SymbolClass<Custom>>;

    fn bitand(self, rhs: HumanRegex<SymbolClass<U>>) -> (r: HumanRegex<SymbolClass<Custom>>)
        ensures
            r@ == class_operation(self@, "&&"@, rhs@),
    {
        HumanRegex::from_text(class_operation_text(self.as_str(), "&&", rhs.as_str()))
    }
}

// What `&` returns is stated by the ensures of `bitand`, over the view.
impl<T, U> vstd::std_specs::ops::BitAndSpecImpl<HumanRegex<SymbolClass<U>>> for HumanRegex<SymbolClass<T>> {
    open spec fn obeys_bitand_spec() -> bool {
        false
    }

    open spec fn bitand_req(self, rhs: HumanRegex<SymbolClass<U>>) -> bool {
        true
    }

    open spec fn bitand_spec(self, rhs: HumanRegex<SymbolClass<U>>) -> HumanRegex<
        SymbolClass<Custom>,
    > {
        choose|r: HumanRegex<SymbolClass<Custom>>| #[trigger] r@ == class_operation(self@, "&&"@, rhs@)
    }
}

/// The characters of `from` that are not in `removed`.
pub fn subtract<T, U>(from: HumanRegex<SymbolClass<T>>, removed: HumanRegex<SymbolClass<U>>) -> (r:
    HumanRegex<SymbolClass<Custom>>)
    ensures
        r@ == class_operation(from@, "--"@, removed@),
{
    HumanRegex::from_text(class_operation_text(from.as_str(), "--", removed.as_str()))
}

/// The letter that names the complement of a standard class: each of `d`,
/// `p`, `w`, `s` and `b` is paired with its upper case form.
pub open spec fn class_letter_partner(c: char) -> Option<char> {
    if c == 'd' {
        Some('D')
    } else if c == 'D' {
        Some('d')
    } else if c == 'p' {
        Some('P')
    } else if c == 'P' {
        Some('p')
    } else if c == 'w' {
        Some('W')
    } else if c == 'W' {
        Some('w')
    } else if c == 's' {
        Some('S')
    } else if c == 'S' {
        Some('s')
    } else if c == 'b' {
        Some('B')
    } else if c == 'B' {
        Some('b')
    } else {
        None
    }
}

fn partner_letter(c: char) -> (r: Option<char>)
    ensures
        r == class_letter_partner(c),
{
    if c == 'd' {
        Some('D')
    } else if c == 'D' {
        Some('d')
    } else if c == 'p' {
        Some('P')
    } else if c == 'P' {
        Some('p')
    } else if c == 'w' {
        Some('W')
    } else if c == 'W' {
        Some('w')
    } else if c == 's' {
        Some('S')
    } else if c == 'S' {
        Some('s')
    } else if c == 'b' {
        Some('B')
    } else if c == 'B' {
        Some('b')
    } else {
        None
    }
}

/// The complement of a standard class. "Any character" and "no character"
/// swap; a class written as a backslash and a letter with a partner gets the
/// partner letter; a class without a complement of its own (the anchors `^`,
/// `$`, `\A`, `\z`) is left as it is.
pub open spec fn negated_standard(s: Seq<char>) -> Seq<char> {
    if s == any_text() {
        none_text()
    } else if s == none_text() {
        any_text()
    } else if s.len() >= 2 && s[0] == '\\' && class_letter_partner(s[1]) is Some {
        s.update(1, class_letter_partner(s[1])->Some_0)
    } else {
        s
    }
}

/// `s` with the negation marker `^` at position `k` taken out if it is there,
/// and put in if it is not.
pub open spec fn toggled_marker(s: Seq<char>, k: int) -> Seq<char> {
    if s.len() > k && s[k] == '^' {
        s.take(k) + s.skip(k + 1)
    } else if s.len() >= k {
        s.take(k) + seq!['^'] + s.skip(k)
    } else {
        s
    }
}

/// The complement of a custom class: the marker right inside the bracket.
pub open spec fn negated_custom(s: Seq<char>) -> Seq<char> {
    toggled_marker(s, 1)
}

/// The complement of an ASCII class: the marker right inside `[[:`.
pub open spec fn negated_ascii(s: Seq<char>) -> Seq<char> {
    toggled_marker(s, 3)
}

/// Literal text negated one character at a time: each plain character `c`
/// becomes `[^c]`, each escaped one `\c` becomes `[^\c]`.
pub open spec fn negated_literal(p: Seq<char>) -> Seq<char>
    decreases p.len(),
{
    if p.len() == 0 {
        seq![]
    } else if p[0] == '\\' && p.len() >= 2 {
        seq!['[', '^', '\\', p[1], ']'] + negated_literal(p.skip(2))
    } else {
        seq!['[', '^', p[0], ']'] + negated_literal(p.skip(1))
    }
}

fn toggle_marker(s: &str, k: usize) -> (r: String)
    ensures
        r@ == toggled_marker(s@, k as int),
{
    let n = s.unicode_len();
    if n > k && s.get_char(k) == '^' {
        let r = String::from_str(s.substring_char(0, k)).concat(s.substring_char(k + 1, n));
        assert(r@ =~= toggled_marker(s@, k as int));
        r
    } else if n >= k {
        let mut r = String::from_str(s.substring_char(0, k));
        r.push('^');
        let r = r.concat(s.substring_char(k, n));
        assert(r@ =~= toggled_marker(s@, k as int));
        r
    } else {
        String::from_str(s)
    }
}

/// Negation of a standard class.
impl Not for HumanRegex<SymbolClass<Standard>> {
    type Output = Self;

    fn not(self) -> (r: Self)
        ensures
            r@ == negated_standard(self@),
    {
        let n = self.as_str().unicode_len();
        if n == 1 && self.as_str().get_char(0) == '.' {
            assert(self@ =~= any_text());
            return none();
        }
        let nothing = none();
        if self.to_string() == nothing.to_string() {
            return any();
        }
        if n >= 2 && self.as_str().get_char(0) == '\\' {
            if let Some(partner) = partner_letter(self.as_str().get_char(1)) {
                let mut text = String::new();
                text.push('\\');
                text.push(partner);
                let text = text.concat(self.as_str().substring_char(2, n));
                assert(self@ != any_text());
                assert(text@ =~= negated_standard(self@));
                return HumanRegex::from_text(text);
            }
        }
        assert(n == 1 ==> self@ != any_text());
        self
    }
}

// What `!` returns is stated by the ensures of `not` above, over the view.
impl vstd::std_specs::ops::NotSpecImpl for HumanRegex<SymbolClass<Standard>> {
    open spec fn obeys_not_spec() -> bool {
        false
    }

    open spec fn not_req(self) -> bool {
        true
    }

    open spec fn not_spec(self) -> Self {
        choose|r: Self| #[trigger] r@ == negated_standard(self@)
    }
}

/// Negation of a custom class.
impl Not for HumanRegex<SymbolClass<Custom>> {
    type Output = Self;

    fn not(self) -> (r: Self)
        ensures
            r@ == negated_custom(self@),
    {
        HumanRegex::from_text(toggle_marker(self.as_str(), 1))
    }
}

// What `!` returns is stated by the ensures of `not` above, over the view.
impl vstd::std_specs::ops::NotSpecImpl for HumanRegex<SymbolClass<Custom>> {
    open spec fn obeys_not_spec() -> bool {
        false
    }

    open spec fn not_req(self) -> bool {
        true
    }

    open spec fn not_spec(self) -> Self {
        choose|r: Self| #[trigger] r@ == negated_custom(self@)
    }
}

/// Negation of an ASCII class.
impl Not for HumanRegex<SymbolClass<Ascii>> {
    type Output = Self;

    fn not(self) -> (r: Self)
        ensures
            r@ == negated_ascii(self@),
    {
        HumanRegex::from_text(toggle_marker(self.as_str(), 3))
    }
}

// What `!` returns is stated by the ensures of `not` above, over the view.
impl vstd::std_specs::ops::NotSpecImpl for HumanRegex<SymbolClass<Ascii>> {
    open spec fn obeys_not_spec() -> bool {
        false
    }

    open spec fn not_req(self) -> bool {
        true
    }

    open spec fn not_spec(self) -> Self {
        choose|r: Self| #[trigger] r@ == negated_ascii(self@)
    }
}

/// Negation of literal text, one character at a time: the result matches as
/// many characters as the literal has, each differing from the literal's
/// character at that place. It does not match "anything but this text".
impl Not for HumanRegex<LiteralSymbolChain> {
    type Output = HumanRegex<SymbolChain>;

    fn not(self) -> (r: HumanRegex<SymbolChain>)
        ensures
            r@ == negated_literal(self@),
    {
        let text = self.as_str();
        let n = text.unicode_len();
        let mut out = String::new();
        let mut i: usize = 0;
        assert(text@.skip(0) =~= text@);
        assert(out@ + negated_literal(text@) =~= negated_literal(text@));
        while i < n
            invariant
                i <= n,
                n == text@.len(),
                out@ + negated_literal(text@.skip(i as int)) == negated_literal(text@),
            decreases n - i,
        {
            let ghost before = out@;
            let ghost rest = text@.skip(i as int);
            out.push('[');
            out.push('^');
            let c = text.get_char(i);
            if c == '\\' && i + 1 < n {
                out.push('\\');
                out.push(text.get_char(i + 1));
                assert(rest.skip(2) =~= text@.skip(i + 2));
                i = i + 2;
            } else {
                out.push(c);
                assert(rest.skip(1) =~= text@.skip(i + 1));
                i = i + 1;
            }
            out.push(']');
            assert(out@ + negated_literal(text@.skip(i as int)) =~= before + negated_literal(rest));
        }
        assert(text@.skip(n as int) =~= Seq::<char>::empty());
        assert(out@ + Seq::<char>::empty() =~= out@);
        HumanRegex::from_text(out)
    }
}

// What `!` returns is stated by the ensures of `not` above, over the view.
impl vstd::std_specs::ops::NotSpecImpl for HumanRegex<LiteralSymbolChain> {
    open spec fn obeys_not_spec() -> bool {
        false
    }

    open spec fn not_req(self) -> bool {
        true
    }

    open spec fn not_spec(self) -> HumanRegex<SymbolChain> {
        choose|r: HumanRegex<SymbolChain>| #[trigger] r@ == negated_literal(self@)
    }
}

/// The marker at `k` is not followed by a second `^`, which would read as a
/// member of the class once the first one is taken out.
pub open spec fn marker_unambiguous(s: Seq<char>, k: int) -> bool {
    !(s.len() > k + 1 && s[k] == '^' && s[k + 1] == '^')
}

proof fn toggled_marker_twice(s: Seq<char>, k: int)
    requires
        0 <= k,
        marker_unambiguous(s, k),
    ensures
        toggled_marker(toggled_marker(s, k), k) == s,
{
    let t = toggled_marker(s, k);
    if s.len() > k && s[k] == '^' {
        assert(t.take(k) =~= s.take(k));
        assert(t.skip(k) =~= s.skip(k + 1));
        assert(t.len() > k ==> t[k] == s[k + 1]);
        assert(t.take(k) + seq!['^'] + t.skip(k) =~= s);
    } else if s.len() >= k {
        assert(t[k] == '^');
        assert(t.take(k) =~= s.take(k));
        assert(t.skip(k + 1) =~= s.skip(k));
        assert(t.take(k) + t.skip(k + 1) =~= s);
    }
}

/// Negating a standard class twice gives back its text, for every text.
pub proof fn standard_negation_involutive(x: HumanRegex<SymbolClass<Standard>>)
    ensures
        negated_standard(negated_standard(x@)) == x@,
{
    let s = x@;
    if s != any_text() && s != none_text() && s.len() >= 2 && s[0] == '\\'
        && class_letter_partner(s[1]) is Some {
        let t = negated_standard(s);
        assert(t[0] == '\\');
        assert(t != none_text());
        assert(t != any_text());
        assert(t.update(1, class_letter_partner(t[1])->Some_0) =~= s);
    } else if s == none_text() {
        assert(any_text() != none_text());
    }
}

/// Negating a custom class twice gives back its text, whenever its negation
/// marker is not followed by a literal `^`.
pub proof fn custom_negation_involutive(x: HumanRegex<SymbolClass<Custom>>)
    requires
        marker_unambiguous(x@, 1),
    ensures
        negated_custom(negated_custom(x@)) == x@,
{
    toggled_marker_twice(x@, 1);
}

/// Negating an ASCII class twice gives back its text, whenever its negation
/// marker is not followed by a literal `^`.
pub proof fn ascii_negation_involutive(x: HumanRegex<SymbolClass<Ascii>>)
    requires
        marker_unambiguous(x@, 3),
    ensures
        negated_ascii(negated_ascii(x@)) == x@,
{
    toggled_marker_twice(x@, 3);
}

} // verus!
