use human_regex::{any, capture, one_or_more, text, within_set, zero_or_more};

#[test]
fn greedy_and_lazy_html_tags() {
    let matching_string = "<div><h1>Wow, so cool!</h1></div>";
    let greedy = (text("<") + one_or_more(any()) + text(">")).to_regex().unwrap();
    let found: Vec<&str> = greedy.find_iter(matching_string).map(|m| m.as_str()).collect();
    assert_eq!(found, vec![matching_string]);
    let lazy = (text("<") + one_or_more(any()).lazy() + text(">")).to_regex().unwrap();
    let found: Vec<&str> = lazy.find_iter(matching_string).map(|m| m.as_str()).collect();
    assert_eq!(found, vec!["<div>", "<h1>", "</h1>", "</div>"]);
}

#[test]
fn url_parameters() {
    let url = r"https://example.com?a=1&b=2&c=3";
    let pattern = within_set("?&;")
        + capture(one_or_more(!text("=")) + text("=") + zero_or_more(!within_set("&;")));
    let re = pattern.to_regex().unwrap();
    let params: Vec<String> = re.captures_iter(url).map(|c| c[1].to_string()).collect();
    assert_eq!(params, vec!["a=1", "b=2", "c=3"]);
}
