use notex::snippet::{extract_snippet, CONTEXT_AFTER, CONTEXT_BEFORE};

#[test]
fn context_widths() {
    assert_eq!(CONTEXT_BEFORE, 20);
    assert_eq!(CONTEXT_AFTER, 40);
}

#[test]
fn short_content_has_no_ellipses() {
    assert_eq!(extract_snippet("buy milk\ncall mom", 4, 4), "buy milk call mom");
    assert_eq!(extract_snippet("remember the milk price", 13, 4), "remember the milk price");
}

#[test]
fn line_breaks_become_spaces() {
    assert_eq!(extract_snippet("a\nb\n\nc", 0, 1), "a b  c");
    assert_eq!(extract_snippet("a\r\nb", 0, 1), "a\r b");
}

#[test]
fn prefix_appears_only_beyond_twenty_characters() {
    let at_twenty = format!("{}Q", "a".repeat(20));
    assert_eq!(extract_snippet(&at_twenty, 20, 1), at_twenty);
    let at_twenty_one = format!("{}Q", "a".repeat(21));
    assert_eq!(extract_snippet(&at_twenty_one, 21, 1), format!("...{}Q", "a".repeat(20)));
}

#[test]
fn suffix_appears_only_where_content_goes_on() {
    let exact = format!("Q{}", "b".repeat(40));
    assert_eq!(extract_snippet(&exact, 0, 1), exact);
    let longer = format!("Q{}", "b".repeat(41));
    assert_eq!(extract_snippet(&longer, 0, 1), format!("Q{}...", "b".repeat(40)));
}

#[test]
fn window_length_follows_the_formula() {
    let content = "x".repeat(200);
    let idx = 50;
    let q = 7;
    let snippet = extract_snippet(&content, idx, q);
    assert_eq!(snippet.chars().count(), 3 + ((idx + q + 40) - (idx - 20)) + 3);
    assert!(snippet.starts_with("..."));
    assert!(snippet.ends_with("..."));
    let near_end = extract_snippet(&content, 190, 7);
    assert_eq!(near_end.chars().count(), 3 + (200 - 170));
    assert!(!near_end.ends_with("..."));
}

#[test]
fn offsets_count_characters_not_bytes() {
    let content = format!("{}milk{}", "é".repeat(25), "ü".repeat(45));
    let snippet = extract_snippet(&content, 25, 4);
    assert_eq!(snippet, format!("...{}milk{}...", "é".repeat(20), "ü".repeat(40)));
}

#[test]
fn offset_far_beyond_the_content_gives_only_the_leading_ellipsis() {
    assert_eq!(extract_snippet("short", 60, 1), "...");
    assert_eq!(extract_snippet("", 0, 0), "");
    assert_eq!(extract_snippet("abc", usize::MAX, usize::MAX), "...");
}
