use human_regex::{
    alphabetic, alphanumeric, ascii, blank, control, graphical, hexdigit, lowercase,
    non_alphabetic, non_alphanumeric, non_ascii, non_blank, non_control, non_graphical,
    non_hexdigit, non_lowercase, non_printable, non_punctuation, non_uppercase, printable,
    punctuation, uppercase,
};

#[test]
fn ascii_class_texts() {
    let pairs = [
        (alphanumeric(), non_alphanumeric(), "alnum"),
        (alphabetic(), non_alphabetic(), "alpha"),
        (lowercase(), non_lowercase(), "lower"),
        (uppercase(), non_uppercase(), "upper"),
        (hexdigit(), non_hexdigit(), "xdigit"),
        (ascii(), non_ascii(), "ascii"),
        (blank(), non_blank(), "blank"),
        (control(), non_control(), "cntrl"),
        (graphical(), non_graphical(), "graph"),
        (printable(), non_printable(), "print"),
        (punctuation(), non_punctuation(), "punct"),
    ];
    for (yes, no, name) in pairs {
        assert_eq!(yes.to_string(), format!("[[:{}:]]", name));
        assert_eq!(no.to_string(), format!("[[:^{}:]]", name));
        assert!(yes.to_regex().is_ok());
        assert!(no.to_regex().is_ok());
    }
}

#[test]
fn ascii_classes_match() {
    let re = hexdigit().to_regex().unwrap();
    assert!(re.is_match("a"));
    assert!(re.is_match("F"));
    assert!(!re.is_match("g"));
    let re = non_ascii().to_regex().unwrap();
    assert!(re.is_match("¡"));
    assert!(!re.is_match("a"));
    let re = blank().to_regex().unwrap();
    assert!(re.is_match(" "));
    assert!(!re.is_match("a"));
    let re = non_punctuation().to_regex().unwrap();
    assert!(!re.is_match("!"));
    assert!(re.is_match("a"));
    let re = lowercase().to_regex().unwrap();
    assert!(re.is_match("a"));
    assert!(!re.is_match("A"));
}
