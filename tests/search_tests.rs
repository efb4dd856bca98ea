use minigrep::search::{chars_of, search};
use minigrep::text::{ascii_lower, ascii_lower_char, contains_exec, occurs_at_exec};

fn owned(v: &[&str]) -> Vec<String> {
    v.iter().map(|s| s.to_string()).collect()
}

#[test]
fn empty_query_returns_every_line() {
    let r = search("one\n\nthree\nfour", "", false);
    assert_eq!(r, owned(&["one", "", "three", "four"]));
    let r = search("One\nTWO\n", "", true);
    assert_eq!(r, owned(&["One", "TWO"]));
}

#[test]
fn search_keeps_order_and_duplicates() {
    assert_eq!(search("a\nbb\na\n", "a", false), owned(&["a", "a"]));
}

#[test]
fn case_insensitive_search_matches_other_case() {
    assert_eq!(search("Hello\nworld\n", "HELLO", true), owned(&["Hello"]));
    assert_eq!(search("Hello\nworld\n", "HELLO", false), Vec::<String>::new());
}

#[test]
fn case_sensitive_search_is_exact() {
    let contents = "Rust:\nsafe, fast, productive.\nPick three.\nDuct tape.";
    assert_eq!(search(contents, "duct", false), owned(&["safe, fast, productive."]));
}

#[test]
fn case_insensitive_search_finds_all_cases() {
    let contents = "Rust:\nsafe, fast, productive.\nPick three.\nTrust me.";
    assert_eq!(search(contents, "rUsT", true), owned(&["Rust:", "Trust me."]));
}

#[test]
fn line_with_several_matches_is_returned_once() {
    assert_eq!(search("aaaa\nb\n", "a", false), owned(&["aaaa"]));
}

#[test]
fn no_match_gives_empty_result() {
    assert!(search("alpha\nbeta\n", "gamma", false).is_empty());
}

#[test]
fn empty_content_has_no_lines() {
    assert!(search("", "", false).is_empty());
    assert!(search("", "x", true).is_empty());
}

#[test]
fn unterminated_last_line_is_a_line() {
    assert_eq!(search("x1\nx2", "x", false), owned(&["x1", "x2"]));
}

#[test]
fn carriage_return_before_newline_ends_line() {
    assert_eq!(search("ab\r\ncd\r\n", "b", false), owned(&["ab"]));
    assert_eq!(search("ab\r\ncd\r\n", "", false), owned(&["ab", "cd"]));
}

#[test]
fn blank_lines_are_lines() {
    assert_eq!(search("\n\n", "", false), owned(&["", ""]));
}

#[test]
fn query_longer_than_line_does_not_match() {
    assert!(search("ab\n", "abc", false).is_empty());
}

#[test]
fn non_ascii_text_is_searched_by_character() {
    assert_eq!(search("Grüße\nfrom Zürich\n", "ZÜ", true), Vec::<String>::new());
    assert_eq!(search("Grüße\nfrom Zürich\n", "zü", true), owned(&["from Zürich"]));
    assert_eq!(search("Grüße\nfrom Zürich\n", "üß", false), owned(&["Grüße"]));
}

#[test]
fn ascii_lower_changes_only_ascii_capitals() {
    assert_eq!(ascii_lower_char('A'), 'a');
    assert_eq!(ascii_lower_char('Z'), 'z');
    assert_eq!(ascii_lower_char('a'), 'a');
    assert_eq!(ascii_lower_char('@'), '@');
    assert_eq!(ascii_lower_char('['), '[');
    assert_eq!(ascii_lower_char('É'), 'É');
    assert_eq!(ascii_lower(&chars_of("MiXeD 42!")), chars_of("mixed 42!"));
}

#[test]
fn containment_at_positions() {
    let t = chars_of("banana");
    assert!(occurs_at_exec(&t, &chars_of("nan"), 2));
    assert!(!occurs_at_exec(&t, &chars_of("nan"), 1));
    assert!(!occurs_at_exec(&t, &chars_of("nan"), 4));
    assert!(occurs_at_exec(&t, &chars_of(""), 6));
    assert!(contains_exec(&t, &chars_of("ana")));
    assert!(contains_exec(&t, &chars_of("banana")));
    assert!(!contains_exec(&t, &chars_of("bananas")));
    assert!(!contains_exec(&t, &chars_of("nab")));
}
