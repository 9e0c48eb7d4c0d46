use human_regex::direct::escape_all;
use human_regex::logical::or;
use human_regex::{
    and, any, at_least, beginning, between, capture, case_insensitive, digit, disable_unicode,
    dot_matches_newline_too, end, exactly, ignore_whitespace_and_comments, multi_line_mode,
    named_capture, non_digit, non_unicode_category, non_unicode_script, nonescaped_text, none,
    one_or_more, punctuation, subtract, text, unicode_category, unicode_script, whitespace,
    within_range, within_set, without_range, word, xor, zero_or_more, zero_or_one,
    HumanRegexError, UnicodeCategory, UnicodeScript,
};

#[test]
fn literal_text_is_escaped() {
    assert_eq!(text("a.b").to_string(), r"a\.b");
    assert_eq!(text("(x|y)*").to_string(), r"\(x\|y\)\*");
    assert_eq!(text("").to_string(), "");
    assert_eq!(text("héllo").to_string(), "héllo");
}

#[test]
fn literal_matches_exactly_itself() {
    for t in ["a.b", "1+1=2", "[full-scale]", "x^2$", "a\\b", "~&#{}"] {
        let re = (beginning() + text(t) + end()).to_regex().unwrap();
        assert!(re.is_match(t));
    }
    let re = text("a.b").to_regex().unwrap();
    assert!(re.is_match("xa.by"));
    assert!(!re.is_match("axb"));
    let re = (beginning() + text("a+") + end()).to_regex().unwrap();
    assert!(!re.is_match("aa"));
    assert!(re.is_match("a+"));
}

#[test]
fn escape_all_keeps_order() {
    let escaped_vec = escape_all(&vec!["et-al", "either|or", "[full-scale]"]);
    assert_eq!(escaped_vec.len(), 3);
    assert_eq!(escaped_vec[0].to_string(), r"et\-al");
    assert_eq!(escaped_vec[1].to_string(), r"either\|or");
    assert_eq!(escaped_vec[2].to_string(), r"\[full\-scale\]");
}

#[test]
fn raw_pattern_is_grouped() {
    let r = nonescaped_text(r"^\d{2}$");
    assert_eq!(r.to_string(), r"(?:^\d{2}$)");
    let re = r.to_regex().unwrap();
    assert!(re.is_match("21"));
    assert!(!re.is_match("007"));
}

#[test]
fn compile_error_on_malformed_raw_text() {
    assert_eq!(
        nonescaped_text("(").to_regex().err(),
        Some(HumanRegexError::CompileError)
    );
}

#[test]
fn concat_is_associative() {
    let left = (text("a") + digit()) + exactly(2, word());
    let right = text("a") + (digit() + exactly(2, word()));
    assert_eq!(left.to_string(), right.to_string());
    assert_eq!(left.to_string(), r"a\d(?:\w){2}");
}

#[test]
fn concat_is_not_commutative() {
    assert_ne!((text("a") + text("b")).to_string(), (text("b") + text("a")).to_string());
}

#[test]
fn date_pattern() {
    let pattern = (beginning() + exactly(4, digit()))
        + (text("-")
            + (exactly(2, digit()) + (text("-") + (exactly(2, digit()) + end()))));
    assert_eq!(pattern.to_string(), r"^(?:\d){4}\-(?:\d){2}\-(?:\d){2}$");
    let re = pattern.to_regex().unwrap();
    assert!(re.is_match("2014-01-01"));
    assert!(!re.is_match("14-01-01"));
}

#[test]
fn alternation_between_literals() {
    let pattern = text("gr") + or(&[text("a"), text("e")]).unwrap() + text("y");
    assert_eq!(pattern.to_string(), "gr(?:a|e)y");
    let re = pattern.to_regex().unwrap();
    assert!(re.is_match("gray"));
    assert!(re.is_match("grey"));
    assert!(!re.is_match("graey"));
}

#[test]
fn alternation_keeps_order() {
    let pattern = or(&[text("a"), text("ab"), text("abc")]).unwrap();
    assert_eq!(pattern.to_string(), "(?:a|ab|abc)");
    let re = pattern.to_regex().unwrap();
    assert_eq!(re.find("abc").unwrap().as_str(), "a");
    assert_eq!(or(&[text("x")]).unwrap().to_string(), "(?:x)");
}

#[test]
fn empty_alternation_fails() {
    let none_given: Vec<human_regex::HumanRegex<human_regex::LiteralSymbolChain>> = Vec::new();
    assert_eq!(or(&none_given).err(), Some(HumanRegexError::EmptyAlternation));
}

#[test]
fn binary_or_of_mixed_categories() {
    let expr = text("w") + (one_or_more(text("o")) + text("w")) | text("oah");
    assert_eq!(expr.to_string(), "(?:w(?:o)+w|oah)");
    let re = expr.to_regex().unwrap();
    assert!(re.is_match("wow"));
    assert!(re.is_match("woooooow"));
    assert!(re.is_match("woah"));
}

#[test]
fn lazy_prefers_shortest() {
    let lazy = zero_or_more(text("a")).lazy();
    assert_eq!(lazy.to_string(), "(?:a)*?");
    let eager = zero_or_more(text("a"));
    assert_eq!(lazy.to_regex().unwrap().find("aaaa").unwrap().as_str(), "");
    assert_eq!(eager.to_regex().unwrap().find("aaaa").unwrap().as_str(), "aaaa");
    let lazy_plus = one_or_more(text("a")).lazy();
    assert_eq!(lazy_plus.to_regex().unwrap().find("aaaa").unwrap().as_str(), "a");
    let lazy_at_least = at_least(2, text("asdf")).lazy();
    assert_eq!(lazy_at_least.to_string(), "(?:asdf){2,}?");
}

#[test]
fn repetition_texts() {
    assert_eq!(at_least(3, text("a")).to_string(), "(?:a){3,}");
    assert_eq!(between(3, 5, text("a")).unwrap().to_string(), "(?:a){3,5}");
    assert_eq!(exactly(5, text("a")).to_string(), "(?:a){5}");
    assert_eq!(exactly(0, text("a")).to_string(), "(?:a){0}");
    assert_eq!(exactly(10, text("a")).to_string(), "(?:a){10}");
    assert_eq!(between(100, 255, text("a")).unwrap().to_string(), "(?:a){100,255}");
    assert_eq!(one_or_more(text("a")).to_string(), "(?:a)+");
    assert_eq!(zero_or_more(text("a")).to_string(), "(?:a)*");
    assert_eq!(zero_or_one(text("a")).to_string(), "(?:a)?");
    assert_eq!(between(7, 7, digit()).unwrap().to_string(), r"(?:\d){7,7}");
}

#[test]
fn repetitions_match() {
    let re = at_least(3, text("a")).to_regex().unwrap();
    assert!(re.is_match("aaaa"));
    assert!(!re.is_match("aa"));
    let re = (beginning() + between(3, 5, text("a")).unwrap() + end()).to_regex().unwrap();
    assert!(re.is_match("aaaa"));
    assert!(!re.is_match("aa"));
    assert!(!re.is_match("aaaaaa"));
    let re = (zero_or_one(text("chris")) + text("mccomb")).to_regex().unwrap();
    assert!(re.is_match("mccomb"));
    assert!(re.is_match("chrismccomb"));
}

#[test]
fn between_rejects_reversed_counts() {
    for (n, m) in [(1u8, 0u8), (5, 3), (255, 0), (200, 199)] {
        assert_eq!(
            between(n, m, text("a")).err(),
            Some(HumanRegexError::InvalidRepetitionRange)
        );
    }
    assert!(between(0, 0, text("a")).is_ok());
}

#[test]
fn intersection_of_range_and_set() {
    let class = and(within_range('a'..='y').unwrap(), within_set("xyz"));
    assert_eq!(class.to_string(), "[[a-y]&&[xyz]]");
    let re = (beginning() + class + end()).to_regex().unwrap();
    assert!(re.is_match("x"));
    assert!(re.is_match("y"));
    assert!(!re.is_match("z"));
    let same = within_range('a'..='y').unwrap() & within_set("xyz");
    assert_eq!(same.to_string(), "[[a-y]&&[xyz]]");
}

#[test]
fn symmetric_difference_of_ranges() {
    let class = xor(within_range('a'..='g').unwrap(), within_range('b'..='h').unwrap());
    assert_eq!(class.to_string(), "[[a-g]~~[b-h]]");
    let re = class.to_regex().unwrap();
    assert!(re.is_match("a"));
    assert!(re.is_match("h"));
    assert!(!re.is_match("d"));
}

#[test]
fn difference_of_classes() {
    let class = subtract(within_range('0'..='9').unwrap(), within_set("4"));
    assert_eq!(class.to_string(), "[[0-9]--[4]]");
    let re = class.to_regex().unwrap();
    assert!(re.is_match("3"));
    assert!(re.is_match("9"));
    assert!(!re.is_match("4"));
}

#[test]
fn ranges_and_sets() {
    assert_eq!(within_range('a'..='d').unwrap().to_string(), "[a-d]");
    assert_eq!(without_range('a'..='d').unwrap().to_string(), "[^a-d]");
    assert_eq!(within_range('-'..='^').unwrap().to_string(), r"[\--\^]");
    assert_eq!(within_set("a-^").to_string(), r"[a\-\^]");
    let re = (beginning() + within_range('a'..='d').unwrap() + end()).to_regex().unwrap();
    assert!(re.is_match("c"));
    assert!(!re.is_match("h"));
    let re = (beginning() + without_range('a'..='d').unwrap() + end()).to_regex().unwrap();
    assert!(re.is_match("h"));
    assert!(!re.is_match("c"));
    assert_eq!(within_range('x'..='x').unwrap().to_string(), "[x-x]");
}

#[test]
fn reversed_range_fails() {
    assert_eq!(within_range('z'..='a').err(), Some(HumanRegexError::InvalidRange));
    assert_eq!(without_range('9'..='0').err(), Some(HumanRegexError::InvalidRange));
}

#[test]
fn standard_class_texts() {
    assert_eq!(any().to_string(), ".");
    assert_eq!(none().to_string(), r"[^\s\S]");
    assert_eq!(digit().to_string(), r"\d");
    assert_eq!(non_digit().to_string(), r"\D");
    assert_eq!(whitespace().to_string(), r"\s");
    let re = (text("h") + exactly(2, any()) + text("l")).to_regex().unwrap();
    assert!(re.is_match("hurl"));
    assert!(re.is_match("heal"));
    assert!(!none().to_regex().unwrap().is_match("anything at all"));
}

#[test]
fn unicode_property_texts() {
    assert_eq!(unicode_category(UnicodeCategory::CurrencySymbol).to_string(), r"\p{Currency_Symbol}");
    assert_eq!(non_unicode_category(UnicodeCategory::Letter).to_string(), r"\P{Letter}");
    assert_eq!(unicode_script(UnicodeScript::Han).to_string(), r"\p{Han}");
    assert_eq!(non_unicode_script(UnicodeScript::Greek).to_string(), r"\P{Greek}");
    let re = (beginning() + one_or_more(unicode_category(UnicodeCategory::CurrencySymbol)) + end())
        .to_regex()
        .unwrap();
    assert!(re.is_match("$¥₹"));
    assert!(!re.is_match("normal words"));
    let re = (beginning() + one_or_more(non_unicode_script(UnicodeScript::Han)) + end())
        .to_regex()
        .unwrap();
    assert!(re.is_match("latin text"));
    assert!(!re.is_match("蟹"));
}

#[test]
fn capture_groups() {
    let pattern = capture(exactly(4, digit()))
        + text("-")
        + capture(exactly(2, digit()))
        + text("-")
        + capture(exactly(2, digit()));
    let caps = pattern.to_regex().unwrap().captures("2010-03-14").unwrap();
    assert_eq!("2010", caps.get(1).unwrap().as_str());
    assert_eq!("03", caps.get(2).unwrap().as_str());
    assert_eq!("14", caps.get(3).unwrap().as_str());
    assert_eq!(capture(text("a")).to_string(), "(a)");
}

#[test]
fn named_capture_groups() {
    let pattern = named_capture(exactly(4, digit()), "year").unwrap()
        + text("-")
        + named_capture(exactly(2, digit()), "month").unwrap();
    assert_eq!(pattern.to_string(), r"(?P<year>(?:\d){4})\-(?P<month>(?:\d){2})");
    let caps = pattern.to_regex().unwrap().captures("2010-03").unwrap();
    assert_eq!("2010", &caps["year"]);
    assert_eq!("03", &caps["month"]);
}

#[test]
fn group_names_follow_the_engine() {
    for good in ["y", "_x", "a1", "a.b[0]", "été", "x_2"] {
        assert!(named_capture(text("a"), good).is_ok(), "{}", good);
        assert!(named_capture(text("a"), good).unwrap().to_regex().is_ok(), "{}", good);
    }
    for bad in ["", "1abc", "a-b", "a b", ".a", "a>b", "x!"] {
        assert_eq!(
            named_capture(text("a"), bad).err(),
            Some(HumanRegexError::InvalidGroupName),
            "{}",
            bad
        );
    }
}

#[test]
fn scoped_flags() {
    let pattern = case_insensitive(text("spongebob"));
    assert_eq!(pattern.to_string(), "(?i:spongebob)");
    let re = pattern.to_regex().unwrap();
    assert!(re.is_match("SpOnGeBoB"));
    assert!(!re.is_match("PaTrIcK"));
    assert_eq!(multi_line_mode(text("a")).to_string(), "(?m:a)");
    assert_eq!(dot_matches_newline_too(any()).to_string(), "(?s:.)");
    assert_eq!(disable_unicode(word()).to_string(), r"(?-u:\w)");
    assert_eq!(ignore_whitespace_and_comments(text("a")).to_string(), "(?x:a)");
    let scoped = case_insensitive(text("a")) + text("b");
    let re = (beginning() + scoped + end()).to_regex().unwrap();
    assert!(re.is_match("Ab"));
    assert!(!re.is_match("AB"));
    let re = (beginning() + dot_matches_newline_too(any()) + end()).to_regex().unwrap();
    assert!(re.is_match("\n"));
}

#[test]
fn classes_in_operators_and_strings() {
    let s: String = punctuation().into();
    assert_eq!(s, "[[:punct:]]");
    assert_eq!(String::from(digit()), r"\d");
    assert_eq!(digit().as_str(), r"\d");
}
