use human_regex::{
    alphanumeric, any, beginning, beginning_of_text, digit, end, end_of_text, non_punctuation,
    non_word_boundary, none, punctuation, text, unicode_category, whitespace, within_range,
    within_set, word, word_boundary, xor, UnicodeCategory,
};

#[test]
fn standard_class_negation() {
    assert_eq!((!digit()).to_string(), r"\D");
    assert_eq!((!word()).to_string(), r"\W");
    assert_eq!((!whitespace()).to_string(), r"\S");
    assert_eq!((!word_boundary()).to_string(), r"\B");
    assert_eq!((!non_word_boundary()).to_string(), r"\b");
    assert_eq!((!unicode_category(UnicodeCategory::Letter)).to_string(), r"\P{Letter}");
    assert_eq!((!any()).to_string(), none().to_string());
    assert_eq!((!none()).to_string(), ".");
}

#[test]
fn anchors_have_no_complement() {
    assert_eq!((!beginning()).to_string(), "^");
    assert_eq!((!end()).to_string(), "$");
    assert_eq!((!beginning_of_text()).to_string(), r"\A");
    assert_eq!((!end_of_text()).to_string(), r"\z");
}

#[test]
fn standard_negation_twice_is_identity() {
    let all = [
        any(), none(), digit(), word(), whitespace(), word_boundary(), beginning(), end(),
        beginning_of_text(), end_of_text(), unicode_category(UnicodeCategory::Mark),
    ];
    for class in all {
        let before = class.to_string();
        assert_eq!((!!class).to_string(), before);
    }
}

#[test]
fn custom_class_negation() {
    assert_eq!((!within_range('a'..='d').unwrap()).to_string(), "[^a-d]");
    assert_eq!((!!within_range('a'..='d').unwrap()).to_string(), "[a-d]");
    assert_eq!((!within_set("^a")).to_string(), r"[^\^a]");
    assert_eq!((!!within_set("^a")).to_string(), r"[\^a]");
    let sym = xor(within_range('a'..='g').unwrap(), within_range('b'..='h').unwrap());
    assert_eq!((!sym).to_string(), "[^[a-g]~~[b-h]]");
    let re = (!within_range('a'..='d').unwrap()).to_regex().unwrap();
    assert!(re.is_match("h"));
    assert!(!re.is_match("c"));
}

#[test]
fn ascii_class_negation() {
    assert_eq!((!punctuation()).to_string(), "[[:^punct:]]");
    assert_eq!((!non_punctuation()).to_string(), "[[:punct:]]");
    assert_eq!((!!alphanumeric()).to_string(), "[[:alnum:]]");
    let re = (!alphanumeric()).to_regex().unwrap();
    assert!(re.is_match("["));
    assert!(!re.is_match("a"));
}

#[test]
fn literal_negation_is_per_character() {
    assert_eq!((!text(r"&\abc")).to_string(), r"[^\&][^\\][^a][^b][^c]");
    assert_eq!((!text("")).to_string(), "");
    assert_eq!((!text("a\nb")).to_string(), "[^a][^\n][^b]");
    let re = (beginning() + !text("ab") + end()).to_regex().unwrap();
    assert!(re.is_match("xy"));
    assert!(!re.is_match("ay"));
    assert!(!re.is_match("x"));
}
