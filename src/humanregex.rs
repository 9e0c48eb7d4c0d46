//! The fragment type, its category markers and the operations shared by all
//! categories.

use std::marker::PhantomData;
use vstd::prelude::*;

verus! {

/// Category of a standard single-character class: a backslash followed by a
/// letter, such as `\d`.
pub struct Standard;

/// Category of a custom single-character class, written inside one pair of
/// square brackets.
pub struct Custom;

/// Category of a POSIX-style ASCII class, written inside two pairs of square
/// brackets and colons, such as `[[:alpha:]]`.
pub struct Ascii;

/// Category of any single-character class; the parameter tells which kind.
pub struct SymbolClass<T>(pub PhantomData<T>);

/// Category of escaped literal text.
pub struct LiteralSymbolChain;

/// Category of an arbitrary, already self-contained expression.
pub struct SymbolChain;

/// Category of the direct result of a repetition operator. Repetitions are
/// greedy; only a fragment of this category can be made lazy.
pub struct Quantifier;

/// Why a fragment could not be built, or its pattern could not be compiled.
#[derive(Debug, Clone, Copy, PartialEq, Eq, Structural)]
pub enum HumanRegexError {
    /// A character range whose lower end is above its upper end.
    InvalidRange,
    /// An alternation of no expressions at all.
    EmptyAlternation,
    /// A bounded repetition whose lower count is above its upper count.
    InvalidRepetitionRange,
    /// A capture group name that the pattern language does not accept.
    InvalidGroupName,
    /// The regular expression engine rejected the assembled pattern.
    CompileError,
}

/// Relies on `String::push`, which appends one character to the string.
pub assume_specification[ String::push ](s: &mut String, ch: char)
    ensures
        final(s)@ == old(s)@.push(ch),
;

#[verifier::external_type_specification]
#[verifier::external_body]
pub struct ExRegex(regex::Regex);

#[verifier::external_type_specification]
#[verifier::external_body]
pub struct ExRegexError(regex::Error);

/// Whether the regular expression engine, with its default settings, accepts
/// `pattern`.
pub uninterp spec fn engine_accepts(pattern: Seq<char>) -> bool;

/// Relies on `regex::Regex::new`: it compiles `pattern` with the default
/// settings, so whether it succeeds depends on the pattern text alone.
#[verifier::external_body]
fn compile_pattern(pattern: &str) -> (r: Result<regex::Regex, regex::Error>)
    ensures
        r is Ok <==> engine_accepts(pattern@),
{
    regex::Regex::new(pattern)
}

/// A piece of pattern text tagged with its category `T`.
#[derive(Debug)]
pub struct HumanRegex<T = SymbolChain>(String, PhantomData<T>);

impl<T> View for HumanRegex<T> {
    type V = Seq<char>;

    closed spec fn view(&self) -> Seq<char> {
        self.0@
    }
}

impl<T> HumanRegex<T> {
    /// Wraps already assembled text in a fragment of category `T`.
    pub(crate) fn from_text(text: String) -> (r: Self)
        ensures
            r@ == text@,
    {
        HumanRegex(text, PhantomData)
    }

    /// The pattern text of this fragment, borrowed.
    pub fn as_str(&self) -> (r: &str)
        ensures
            r@ == self@,
    {
        self.0.as_str()
    }

    /// The pattern text of this fragment.
    pub fn to_string(&self) -> (r: String)
        ensures
            r@ == self@,
    {
        self.0.clone()
    }

    /// Hands the pattern text to the regular expression engine. Fails with
    /// `CompileError` when the engine rejects it: among the fragments built
    /// by this library, raw text can cause that, and so can the class of
    /// surrogate code points, which UTF-8 text never holds.
    pub fn to_regex(&self) -> (r: Result<regex::Regex, HumanRegexError>)
        ensures
            r is Ok <==> engine_accepts(self@),
            r is Err ==> r->Err_0 == HumanRegexError::CompileError,
    {
        match compile_pattern(self.0.as_str()) {
            Ok(re) => Ok(re),
            Err(_) => Err(HumanRegexError::CompileError),
        }
    }

    /// Joins two fragments: the result matches `self` followed by `rhs`.
    pub fn concat<U>(self, rhs: HumanRegex<U>) -> (r: HumanRegex<SymbolChain>)
        ensures
            r@ == self@ + rhs@,
    {
        let HumanRegex(text, _) = self;
        HumanRegex::from_text(text.concat(rhs.0.as_str()))
    }
}

impl HumanRegex<Quantifier> {
    /// Makes a repetition lazy: it then prefers the shortest span it can match.
    pub fn lazy(&self) -> (r: HumanRegex<SymbolChain>)
        ensures
            r@ == self@.push('?'),
    {
        let text = self.0.clone().concat("?");
        proof {
            reveal_strlit("?");
        }
        HumanRegex::from_text(text)
    }
}

impl<T, U> std::ops::Add<HumanRegex<U>> for HumanRegex<T> {
    type Output = HumanRegex<SymbolChain>;

    fn add(self, rhs: HumanRegex<U>) -> (r: HumanRegex<SymbolChain>)
        ensures
            r@ == self@ + rhs@,
    {
        self.concat(rhs)
    }
}

// What `+` returns is stated by the ensures of `add` above, over the view;
// a value-level description is not available for a type that holds a `String`.
impl<T, U> vstd::std_specs::ops::AddSpecImpl<HumanRegex<U>> for HumanRegex<T> {
    open spec fn obeys_add_spec() -> bool {
        false
    }

    open spec fn add_req(self, rhs: HumanRegex<U>) -> bool {
        true
    }

    open spec fn add_spec(self, rhs: HumanRegex<U>) -> HumanRegex<SymbolChain> {
        choose|r: HumanRegex<SymbolChain>| #[trigger] r@ == self@ + rhs@
    }
}

/// Concatenation is associative on pattern text: for any three fragments,
/// whatever their categories, `(a + b) + c` and `a + (b + c)` have the same
/// text.
pub proof fn concat_associative<A, B, C>(a: HumanRegex<A>, b: HumanRegex<B>, c: HumanRegex<C>)
    ensures
        (a@ + b@) + c@ == a@ + (b@ + c@),
{
    assert((a@ + b@) + c@ =~= a@ + (b@ + c@));
}

/// The pattern text of a fragment.
impl<T> From<HumanRegex<T>> for String {
    fn from(hr: HumanRegex<T>) -> (r: String)
        ensures
            r@ == hr@,
    {
        hr.0
    }
}

impl<T> vstd::std_specs::convert::FromSpecImpl<HumanRegex<T>> for String {
    open spec fn obeys_from_spec() -> bool {
        true
    }

    closed spec fn from_spec(hr: HumanRegex<T>) -> String {
        hr.0
    }
}

} // verus!
