//! Standard single-character classes, character ranges and sets, and the
//! Unicode property classes.

use crate::direct::{escape, escape_char, escaped};
use crate::humanregex::{Custom, HumanRegex, HumanRegexError, Standard, SymbolClass};
use std::ops::RangeInclusive;
use vstd::prelude::*;

verus! {

/// Relies on `RangeInclusive::into_inner`, which splits the range into its
/// lower and upper bound.
pub assume_specification<Idx>[ std::ops::RangeInclusive::<Idx>::into_inner ](r: std::ops::RangeInclusive<Idx>) -> (bounds: (Idx, Idx))
    ensures
        bounds.0 == r@.start,
        bounds.1 == r@.end,
;

/// The text of the class that matches any character but a line feed.
pub open spec fn any_text() -> Seq<char> {
    seq!['.']
}

/// The text of the class that matches no character at all.
pub open spec fn none_text() -> Seq<char> {
    seq!['[', '^', '\\', 's', '\\', 'S', ']']
}

/// Matches any character except a line feed (`.`).
pub fn any() -> (r: HumanRegex<SymbolClass<Standard>>)
    ensures
        r@ == any_text(),
{
    let mut s = String::new();
    s.push('.');
    HumanRegex::from_text(s)
}

/// Matches no character: the complement of every character, written as a
/// class that is both whitespace and not whitespace.
pub fn none() -> (r: HumanRegex<SymbolClass<Standard>>)
    ensures
        r@ == none_text(),
{
    let r = HumanRegex::from_text(String::from_str("[^\\s\\S]"));
    proof {
        reveal_strlit("[^\\s\\S]");
        assert(r@ =~= none_text());
    }
    r
}

/// Matches a decimal digit (`\d`).
pub fn digit() -> (r: HumanRegex<SymbolClass<Standard>>)
    ensures
        r@ == "\\d"@,
{
    HumanRegex::from_text(String::from_str("\\d"))
}

/// Matches anything but a decimal digit (`\D`).
pub fn non_digit() -> (r: HumanRegex<SymbolClass<Standard>>)
    ensures
        r@ == "\\D"@,
{
    HumanRegex::from_text(String::from_str("\\D"))
}

/// Matches a word character: a letter, a digit or an underscore (`\w`).
pub fn word() -> (r: HumanRegex<SymbolClass<Standard>>)
    ensures
        r@ == "\\w"@,
{
    HumanRegex::from_text(String::from_str("\\w"))
}

/// Matches anything but a word character (`\W`).
pub fn non_word() -> (r: HumanRegex<SymbolClass<Standard>>)
    ensures
        r@ == "\\W"@,
{
    HumanRegex::from_text(String::from_str("\\W"))
}

/// Matches a whitespace character (`\s`).
pub fn whitespace() -> (r: HumanRegex<SymbolClass<Standard>>)
    ensures
        r@ == "\\s"@,
{
    HumanRegex::from_text(String::from_str("\\s"))
}

/// Matches anything but a whitespace character (`\S`).
pub fn non_whitespace() -> (r: HumanRegex<SymbolClass<Standard>>)
    ensures
        r@ == "\\S"@,
{
    HumanRegex::from_text(String::from_str("\\S"))
}

/// A one-character string.
fn char_string(c: char) -> (r: String)
    ensures
        r@ == seq![c],
{
    let mut s = String::new();
    s.push(c);
    s
}

/// The text of a class of the characters from `lo` to `hi`, both escaped;
/// `negated` puts the negation marker in.
pub open spec fn range_class(lo: char, hi: char, negated: bool) -> Seq<char> {
    (if negated {
        "[^"@
    } else {
        "["@
    }) + escape_char(lo) + "-"@ + escape_char(hi) + "]"@
}

proof fn escaped_single(c: char)
    ensures
        escaped(seq![c]) == escape_char(c),
{
    let s = seq![c];
    assert(s.skip(1) =~= Seq::<char>::empty());
    assert(escaped(s.skip(1)) == Seq::<char>::empty());
    assert(escaped(s) =~= escape_char(c));
}

/// Builds the class text for a range, or fails when the range is reversed.
fn range_fragment(range: RangeInclusive<char>, negated: bool) -> (r: Result<
    HumanRegex<SymbolClass<Custom>>,
    HumanRegexError,
>)
    ensures
        r is Err <==> range@.start > range@.end,
        r is Err ==> r->Err_0 == HumanRegexError::InvalidRange,
        r is Ok ==> r->Ok_0@ == range_class(range@.start, range@.end, negated),
{
    let (lo, hi) = range.into_inner();
    if lo > hi {
        return Err(HumanRegexError::InvalidRange);
    }
    let lo_text = escape(char_string(lo).as_str());
    let hi_text = escape(char_string(hi).as_str());
    proof {
        escaped_single(lo);
        escaped_single(hi);
    }
    let open = if negated {
        String::from_str("[^")
    } else {
        String::from_str("[")
    };
    let text = open.concat(lo_text.as_str()).concat("-").concat(hi_text.as_str()).concat("]");
    Ok(HumanRegex::from_text(text))
}

/// Matches any character from the start to the end of `range`, both
/// included. Fails with `InvalidRange` when the start is above the end.
pub fn within_range(range: RangeInclusive<char>) -> (r: Result<
    HumanRegex<SymbolClass<Custom>>,
    HumanRegexError,
>)
    ensures
        r is Err <==> range@.start > range@.end,
        r is Err ==> r->Err_0 == HumanRegexError::InvalidRange,
        r is Ok ==> r->Ok_0@ == range_class(range@.start, range@.end, false),
{
    range_fragment(range, false)
}

/// Matches any character outside `range`. Fails with `InvalidRange` when the
/// start is above the end.
pub fn without_range(range: RangeInclusive<char>) -> (r: Result<
    HumanRegex<SymbolClass<Custom>>,
    HumanRegexError,
>)
    ensures
        r is Err <==> range@.start > range@.end,
        r is Err ==> r->Err_0 == HumanRegexError::InvalidRange,
        r is Ok ==> r->Ok_0@ == range_class(range@.start, range@.end, true),
{
    range_fragment(range, true)
}

/// Matches any one of the characters of `members`, each escaped.
pub fn within_set(members: &str) -> (r: HumanRegex<SymbolClass<Custom>>)
    ensures
        r@ == "["@ + escaped(members@) + "]"@,
{
    let inner = escape(members);
    HumanRegex::from_text(String::from_str("[").concat(inner.as_str()).concat("]"))
}

/// The Unicode general categories.
///
/// Used by [unicode_category] and [non_unicode_category]. Each variant is
/// written with the property name that the regular expression engine knows.
pub enum UnicodeCategory {
    Letter,
    LowercaseLetter,
    UppercaseLetter,
    TitlecaseLetter,
    CasedLetter,
    ModifierLetter,
    OtherLetter,
    Mark,
    NonSpacingMark,
    SpaceCombiningMark,
    EnclosingMark,
    Separator,
    SpaceSeparator,
    LineSeparator,
    ParagraphSeparator,
    Symbol,
    MathSymbol,
    CurrencySymbol,
    ModifierSymbol,
    OtherSymbol,
    Number,
    DecimalDigitNumber,
    LetterNumber,
    OtherNumber,
    Punctuation,
    DashPunctuation,
    OpenPunctuation,
    ClosePunctuation,
    InitialPunctuation,
    FinalPunctuation,
    ConnectorPunctuation,
    OtherPunctuation,
    Other,
    Control,
    Format,
    PrivateUse,
    Surrogate,
    Unassigned,
}

/// The name under which the pattern language knows a general category.
pub open spec fn category_name(category: UnicodeCategory) -> Seq<char> {
    match category {
        UnicodeCategory::Letter => "Letter"@,
        UnicodeCategory::LowercaseLetter => "Lowercase_Letter"@,
        UnicodeCategory::UppercaseLetter => "Uppercase_Letter"@,
        UnicodeCategory::TitlecaseLetter => "Titlecase_Letter"@,
        UnicodeCategory::CasedLetter => "Cased_Letter"@,
        UnicodeCategory::ModifierLetter => "Modifier_Letter"@,
        UnicodeCategory::OtherLetter => "Other_Letter"@,
        UnicodeCategory::Mark => "Mark"@,
        UnicodeCategory::NonSpacingMark => "NonSpacing_Mark"@,
        UnicodeCategory::SpaceCombiningMark => "Spacing_Mark"@,
        UnicodeCategory::EnclosingMark => "Enclosing_Mark"@,
        UnicodeCategory::Separator => "Separator"@,
        UnicodeCategory::SpaceSeparator => "Space_Separator"@,
        UnicodeCategory::LineSeparator => "Line_Separator"@,
        UnicodeCategory::ParagraphSeparator => "Paragraph_Separator"@,
        UnicodeCategory::Symbol => "Symbol"@,
        UnicodeCategory::MathSymbol => "Math_Symbol"@,
        UnicodeCategory::CurrencySymbol => "Currency_Symbol"@,
        UnicodeCategory::ModifierSymbol => "Modifier_Symbol"@,
        UnicodeCategory::OtherSymbol => "Other_Symbol"@,
        UnicodeCategory::Number => "Number"@,
        UnicodeCategory::DecimalDigitNumber => "Decimal_Number"@,
        UnicodeCategory::LetterNumber => "Letter_Number"@,
        UnicodeCategory::OtherNumber => "Other_Number"@,
        UnicodeCategory::Punctuation => "Punctuation"@,
        UnicodeCategory::DashPunctuation => "Dash_Punctuation"@,
        UnicodeCategory::OpenPunctuation => "Open_Punctuation"@,
        UnicodeCategory::ClosePunctuation => "Close_Punctuation"@,
        UnicodeCategory::InitialPunctuation => "Initial_Punctuation"@,
        UnicodeCategory::FinalPunctuation => "Final_Punctuation"@,
        UnicodeCategory::ConnectorPunctuation => "Connector_Punctuation"@,
        UnicodeCategory::OtherPunctuation => "Other_Punctuation"@,
        UnicodeCategory::Other => "Other"@,
        UnicodeCategory::Control => "Control"@,
        UnicodeCategory::Format => "Format"@,
        UnicodeCategory::PrivateUse => "Private_Use"@,
        UnicodeCategory::Surrogate => "Surrogate"@,
        UnicodeCategory::Unassigned => "Unassigned"@,
    }
}

fn category_property(category: &UnicodeCategory) -> (r: &'static str)
    ensures
        r@ == category_name(*category),
{
    match category {
        UnicodeCategory::Letter => "Letter",
        UnicodeCategory::LowercaseLetter => "Lowercase_Letter",
        UnicodeCategory::UppercaseLetter => "Uppercase_Letter",
        UnicodeCategory::TitlecaseLetter => "Titlecase_Letter",
        UnicodeCategory::CasedLetter => "Cased_Letter",
        UnicodeCategory::ModifierLetter => "Modifier_Letter",
        UnicodeCategory::OtherLetter => "Other_Letter",
        UnicodeCategory::Mark => "Mark",
        UnicodeCategory::NonSpacingMark => "NonSpacing_Mark",
        UnicodeCategory::SpaceCombiningMark => "Spacing_Mark",
        UnicodeCategory::EnclosingMark => "Enclosing_Mark",
        UnicodeCategory::Separator => "Separator",
        UnicodeCategory::SpaceSeparator => "Space_Separator",
        UnicodeCategory::LineSeparator => "Line_Separator",
        UnicodeCategory::ParagraphSeparator => "Paragraph_Separator",
        UnicodeCategory::Symbol => "Symbol",
        UnicodeCategory::MathSymbol => "Math_Symbol",
        UnicodeCategory::CurrencySymbol => "Currency_Symbol",
        UnicodeCategory::ModifierSymbol => "Modifier_Symbol",
        UnicodeCategory::OtherSymbol => "Other_Symbol",
        UnicodeCategory::Number => "Number",
        UnicodeCategory::DecimalDigitNumber => "Decimal_Number",
        UnicodeCategory::LetterNumber => "Letter_Number",
        UnicodeCategory::OtherNumber => "Other_Number",
        UnicodeCategory::Punctuation => "Punctuation",
        UnicodeCategory::DashPunctuation => "Dash_Punctuation",
        UnicodeCategory::OpenPunctuation => "Open_Punctuation",
        UnicodeCategory::ClosePunctuation => "Close_Punctuation",
        UnicodeCategory::InitialPunctuation => "Initial_Punctuation",
        UnicodeCategory::FinalPunctuation => "Final_Punctuation",
        UnicodeCategory::ConnectorPunctuation => "Connector_Punctuation",
        UnicodeCategory::OtherPunctuation => "Other_Punctuation",
        UnicodeCategory::Other => "Other",
        UnicodeCategory::Control => "Control",
        UnicodeCategory::Format => "Format",
        UnicodeCategory::PrivateUse => "Private_Use",
        UnicodeCategory::Surrogate => "Surrogate",
        UnicodeCategory::Unassigned => "Unassigned",
    }
}

/// Matches a character of the given Unicode general category (`\p{..}`).
/// For scripts see [unicode_script].
pub fn unicode_category(category: UnicodeCategory) -> (r: HumanRegex<SymbolClass<Standard>>)
    ensures
        r@ == "\\p{"@ + category_name(category) + "}"@,
{
    let name = category_property(&category);
    HumanRegex::from_text(String::from_str("\\p{").concat(name).concat("}"))
}

/// Matches a character outside the given Unicode general category
/// (`\P{..}`). For scripts see [non_unicode_script].
pub fn non_unicode_category(category: UnicodeCategory) -> (r: HumanRegex<SymbolClass<Standard>>)
    ensures
        r@ == "\\P{"@ + category_name(category) + "}"@,
{
    let name = category_property(&category);
    HumanRegex::from_text(String::from_str("\\P{").concat(name).concat("}"))
}

/// The Unicode scripts.
///
/// Used by [unicode_script] and [non_unicode_script]. Each variant is written
/// with the script name that the regular expression engine knows.
pub enum UnicodeScript {
    Common,
    Arabic,
    Armenian,
    Bengali,
    Bopomofo,
    Braille,
    Buhid,
    CandianAboriginal,
    Cherokee,
    Cyrillic,
    Devanagari,
    Ethiopic,
    Georgian,
    Greek,
    Gujarati,
    Gurkmukhi,
    Han,
    Hangul,
    Hanunoo,
    Hebrew,
    Hirigana,
    Inherited,
    Kannada,
    Katakana,
    Khmer,
    Lao,
    Latin,
    Limbu,
    Malayalam,
    Mongolian,
    Myanmar,
    Ogham,
    Oriya,
    Runic,
    Sinhala,
    Syriac,
    Tagalog,
    Tagbanwa,
    TaiLe,
    Tamil,
    Telugu,
    Thaana,
    Thai,
    Tibetan,
    Yi,
}

/// The name under which the pattern language knows a script.
pub open spec fn script_name(script: UnicodeScript) -> Seq<char> {
    match script {
        UnicodeScript::Common => "Common"@,
        UnicodeScript::Arabic => "Arabic"@,
        UnicodeScript::Armenian => "Armenian"@,
        UnicodeScript::Bengali => "Bengali"@,
        UnicodeScript::Bopomofo => "Bopomofo"@,
        UnicodeScript::Braille => "Braille"@,
        UnicodeScript::Buhid => "Buhid"@,
        UnicodeScript::CandianAboriginal => "Canadian_Aboriginal"@,
        UnicodeScript::Cherokee => "Cherokee"@,
        UnicodeScript::Cyrillic => "Cyrillic"@,
        UnicodeScript::Devanagari => "Devanagari"@,
        UnicodeScript::Ethiopic => "Ethiopic"@,
        UnicodeScript::Georgian => "Georgian"@,
        UnicodeScript::Greek => "Greek"@,
        UnicodeScript::Gujarati => "Gujarati"@,
        UnicodeScript::Gurkmukhi => "Gurmukhi"@,
        UnicodeScript::Han => "Han"@,
        UnicodeScript::Hangul => "Hangul"@,
        UnicodeScript::Hanunoo => "Hanunoo"@,
        UnicodeScript::Hebrew => "Hebrew"@,
        UnicodeScript::Hirigana => "Hiragana"@,
        UnicodeScript::Inherited => "Inherited"@,
        UnicodeScript::Kannada => "Kannada"@,
        UnicodeScript::Katakana => "Katakana"@,
        UnicodeScript::Khmer => "Khmer"@,
        UnicodeScript::Lao => "Lao"@,
        UnicodeScript::Latin => "Latin"@,
        UnicodeScript::Limbu => "Limbu"@,
        UnicodeScript::Malayalam => "Malayalam"@,
        UnicodeScript::Mongolian => "Mongolian"@,
        UnicodeScript::Myanmar => "Myanmar"@,
        UnicodeScript::Ogham => "Ogham"@,
        UnicodeScript::Oriya => "Oriya"@,
        UnicodeScript::Runic => "Runic"@,
        UnicodeScript::Sinhala => "Sinhala"@,
        UnicodeScript::Syriac => "Syriac"@,
        UnicodeScript::Tagalog => "Tagalog"@,
        UnicodeScript::Tagbanwa => "Tagbanwa"@,
        UnicodeScript::TaiLe => "TaiLe"@,
        UnicodeScript::Tamil => "Tamil"@,
        UnicodeScript::Telugu => "Telugu"@,
        UnicodeScript::Thaana => "Thaana"@,
        UnicodeScript::Thai => "Thai"@,
        UnicodeScript::Tibetan => "Tibetan"@,
        UnicodeScript::Yi => "Yi"@,
    }
}

fn script_property(script: &UnicodeScript) -> (r: &'static str)
    ensures
        r@ == script_name(*script),
{
    match script {
        UnicodeScript::Common => "Common",
        UnicodeScript::Arabic => "Arabic",
        UnicodeScript::Armenian => "Armenian",
        UnicodeScript::Bengali => "Bengali",
        UnicodeScript::Bopomofo => "Bopomofo",
        UnicodeScript::Braille => "Braille",
        UnicodeScript::Buhid => "Buhid",
        UnicodeScript::CandianAboriginal => "Canadian_Aboriginal",
        UnicodeScript::Cherokee => "Cherokee",
        UnicodeScript::Cyrillic => "Cyrillic",
        UnicodeScript::Devanagari => "Devanagari",
        UnicodeScript::Ethiopic => "Ethiopic",
        UnicodeScript::Georgian => "Georgian",
        UnicodeScript::Greek => "Greek",
        UnicodeScript::Gujarati => "Gujarati",
        UnicodeScript::Gurkmukhi => "Gurmukhi",
        UnicodeScript::Han => "Han",
        UnicodeScript::Hangul => "Hangul",
        UnicodeScript::Hanunoo => "Hanunoo",
        UnicodeScript::Hebrew => "Hebrew",
        UnicodeScript::Hirigana => "Hiragana",
        UnicodeScript::Inherited => "Inherited",
        UnicodeScript::Kannada => "Kannada",
        UnicodeScript::Katakana => "Katakana",
        UnicodeScript::Khmer => "Khmer",
        UnicodeScript::Lao => "Lao",
        UnicodeScript::Latin => "Latin",
        UnicodeScript::Limbu => "Limbu",
        UnicodeScript::Malayalam => "Malayalam",
        UnicodeScript::Mongolian => "Mongolian",
        UnicodeScript::Myanmar => "Myanmar",
        UnicodeScript::Ogham => "Ogham",
        UnicodeScript::Oriya => "Oriya",
        UnicodeScript::Runic => "Runic",
        UnicodeScript::Sinhala => "Sinhala",
        UnicodeScript::Syriac => "Syriac",
        UnicodeScript::Tagalog => "Tagalog",
        UnicodeScript::Tagbanwa => "Tagbanwa",
        UnicodeScript::TaiLe => "TaiLe",
        UnicodeScript::Tamil => "Tamil",
        UnicodeScript::Telugu => "Telugu",
        UnicodeScript::Thaana => "Thaana",
        UnicodeScript::Thai => "Thai",
        UnicodeScript::Tibetan => "Tibetan",
        UnicodeScript::Yi => "Yi",
    }
}

/// Matches a character of the given Unicode script (`\p{..}`). For other
/// categories see [unicode_category].
pub fn unicode_script(category: UnicodeScript) -> (r: HumanRegex<SymbolClass<Standard>>)
    ensures
        r@ == "\\p{"@ + script_name(category) + "}"@,
{
    let name = script_property(&category);
    HumanRegex::from_text(String::from_str("\\p{").concat(name).concat("}"))
}

/// Matches a character outside the given Unicode script (`\P{..}`). For
/// other categories see [non_unicode_category].
pub fn non_unicode_script(category: UnicodeScript) -> (r: HumanRegex<SymbolClass<Standard>>)
    ensures
        r@ == "\\P{"@ + script_name(category) + "}"@,
{
    let name = script_property(&category);
    HumanRegex::from_text(String::from_str("\\P{").concat(name).concat("}"))
}

} // verus!
