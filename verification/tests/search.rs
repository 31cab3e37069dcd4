use notex::entry::FileEntry;
use notex::error::CoreError;
use notex::search::{assess_entry, search_entries, search_notes, Candidate, MatchType};

fn file(name: &str, content: &str) -> Candidate {
    Candidate {
        entry: FileEntry::new(name.to_string(), format!("/notes/{}", name), false, Some(1_000)),
        content: Some(content.to_string()),
    }
}

fn unreadable(name: &str) -> Candidate {
    Candidate {
        entry: FileEntry::new(name.to_string(), format!("/notes/{}", name), false, Some(1_000)),
        content: None,
    }
}

fn folder(name: &str) -> Candidate {
    Candidate {
        entry: FileEntry::new(name.to_string(), format!("/notes/{}", name), true, None),
        content: None,
    }
}

fn notes() -> Vec<Candidate> {
    vec![
        file("notes.md", "remember the milk price"),
        file("todo.txt", "buy milk\ncall mom"),
        file(".hidden.txt", "milk"),
    ]
}

#[test]
fn content_matches_tie_in_listing_order() {
    let found = search_entries(&notes(), "milk");
    assert_eq!(found.len(), 2);
    assert_eq!(found[0].file.name, "notes.md");
    assert_eq!(found[0].file.path, "/notes/notes.md");
    assert_eq!(found[0].match_type, MatchType::Content);
    assert_eq!(found[0].score, 5);
    assert_eq!(found[0].snippet, "remember the milk price");
    assert_eq!(found[1].file.name, "todo.txt");
    assert_eq!(found[1].match_type, MatchType::Content);
    assert_eq!(found[1].score, 5);
    assert_eq!(found[1].snippet, "buy milk call mom");
}

#[test]
fn listing_order_breaks_the_tie_the_other_way_round() {
    let entries = vec![
        file("todo.txt", "buy milk\ncall mom"),
        file(".hidden.txt", "milk"),
        file("notes.md", "remember the milk price"),
    ];
    let found = search_entries(&entries, "milk");
    assert_eq!(found.len(), 2);
    assert_eq!(found[0].file.name, "todo.txt");
    assert_eq!(found[1].file.name, "notes.md");
}

#[test]
fn name_match_ranks_above_content_match() {
    let entries = vec![
        file("notes.md", "remember the todo list"),
        file("todo.txt", "buy milk\ncall mom"),
        file(".hidden.txt", "milk"),
    ];
    let found = search_entries(&entries, "todo");
    assert_eq!(found.len(), 2);
    assert_eq!(found[0].file.name, "todo.txt");
    assert_eq!(found[0].match_type, MatchType::Name);
    assert_eq!(found[0].score, 10);
    assert_eq!(found[0].snippet, "");
    assert_eq!(found[1].file.name, "notes.md");
    assert_eq!(found[1].match_type, MatchType::Content);
    assert_eq!(found[1].score, 5);
}

#[test]
fn query_todo_over_the_notes_matches_by_name_only() {
    let found = search_entries(&notes(), "todo");
    assert_eq!(found.len(), 1);
    assert_eq!(found[0].file.name, "todo.txt");
    assert_eq!(found[0].match_type, MatchType::Name);
    assert_eq!(found[0].score, 10);
}

#[test]
fn empty_query_finds_nothing() {
    assert!(search_entries(&notes(), "").is_empty());
    assert!(search_entries(&Vec::new(), "").is_empty());
    let listed = search_notes(Ok(notes()), "");
    assert!(matches!(listed, Ok(ref found) if found.is_empty()));
}

#[test]
fn name_match_ignores_case() {
    let entries = vec![file("TODO.txt", "nothing here"), file("other.md", "nothing")];
    let found = search_entries(&entries, "todo");
    assert_eq!(found.len(), 1);
    assert_eq!(found[0].file.name, "TODO.txt");
    assert_eq!(found[0].match_type, MatchType::Name);
    assert!(found[0].score >= 10);
    let found = search_entries(&[file("todo.txt", "")].into_iter().collect(), "ToDo");
    assert_eq!(found.len(), 1);
    assert_eq!(found[0].score, 10);
}

#[test]
fn content_match_ignores_case_and_shows_content_as_read() {
    let found = search_entries(&vec![file("a.md", "Buy MILK today")], "milk");
    assert_eq!(found.len(), 1);
    assert_eq!(found[0].match_type, MatchType::Content);
    assert_eq!(found[0].snippet, "Buy MILK today");
}

#[test]
fn name_and_content_match_scores_fifteen() {
    let found = search_entries(&vec![file("milk.md", "buy milk")], "milk");
    assert_eq!(found.len(), 1);
    assert_eq!(found[0].match_type, MatchType::Name);
    assert_eq!(found[0].score, 15);
    assert_eq!(found[0].snippet, "buy milk");
}

#[test]
fn results_are_sorted_by_descending_score_and_stable() {
    let entries = vec![
        file("a.md", "has milk"),
        file("milk-1.md", "nothing"),
        file("b.md", "more milk"),
        file("milk-2.md", "milk inside"),
        file("milk-3.md", "nothing"),
        file("c.md", "milk"),
        file("milk-4.md", "milk too"),
    ];
    let found = search_entries(&entries, "milk");
    let names: Vec<&str> = found.iter().map(|r| r.file.name.as_str()).collect();
    assert_eq!(
        names,
        vec!["milk-2.md", "milk-4.md", "milk-1.md", "milk-3.md", "a.md", "b.md", "c.md"]
    );
    let scores: Vec<u32> = found.iter().map(|r| r.score).collect();
    assert_eq!(scores, vec![15, 15, 10, 10, 5, 5, 5]);
}

#[test]
fn hidden_entries_never_appear() {
    let entries = vec![file(".milk", "milk"), file(".hidden.txt", "milk"), folder(".milk-dir")];
    assert!(search_entries(&entries, "milk").is_empty());
    assert!(search_entries(&entries, ".").is_empty());
}

#[test]
fn directories_match_by_name_only() {
    let with_content = Candidate {
        entry: FileEntry::new("box".to_string(), "/notes/box".to_string(), true, None),
        content: Some("milk".to_string()),
    };
    let entries = vec![folder("milk-recipes"), with_content];
    let found = search_entries(&entries, "milk");
    assert_eq!(found.len(), 1);
    assert_eq!(found[0].file.name, "milk-recipes");
    assert!(found[0].file.is_dir);
    assert_eq!(found[0].file.last_modified, 0);
    assert_eq!(found[0].match_type, MatchType::Name);
    assert_eq!(found[0].score, 10);
    assert_eq!(found[0].snippet, "");
}

#[test]
fn unreadable_content_is_skipped_without_failing() {
    let entries = vec![unreadable("milk.bin"), unreadable("other.bin")];
    let found = search_entries(&entries, "milk");
    assert_eq!(found.len(), 1);
    assert_eq!(found[0].file.name, "milk.bin");
    assert_eq!(found[0].score, 10);
    assert_eq!(found[0].snippet, "");
}

#[test]
fn matching_is_by_substring_without_word_boundaries() {
    let found = search_entries(&vec![file("a.md", "buttermilkshake")], "milk");
    assert_eq!(found.len(), 1);
    assert_eq!(found[0].snippet, "buttermilkshake");
    assert!(search_entries(&vec![file("a.md", "mi lk")], "milk").is_empty());
}

#[test]
fn snippet_of_a_search_has_ellipses_on_both_sides() {
    let content = format!("{}milk{}", "a".repeat(30), "b".repeat(50));
    let found = search_entries(&vec![file("a.md", &content)], "milk");
    assert_eq!(found.len(), 1);
    assert_eq!(found[0].snippet, format!("...{}milk{}...", "a".repeat(20), "b".repeat(40)));
}

#[test]
fn first_occurrence_in_the_content_is_shown() {
    let content = format!("milk{}milk", "x".repeat(100));
    let found = search_entries(&vec![file("a.md", &content)], "milk");
    assert_eq!(found[0].snippet, format!("milk{}...", "x".repeat(40)));
}

#[test]
fn failed_listing_is_an_io_error() {
    let outcome = search_notes(Err("No such file or directory (os error 2)".to_string()), "milk");
    match outcome {
        Err(CoreError::IOError { message }) => {
            assert_eq!(message, "No such file or directory (os error 2)")
        }
        _ => panic!("expected an IOError"),
    }
}

#[test]
fn listed_directory_is_searched() {
    let outcome = search_notes(Ok(notes()), "milk");
    match outcome {
        Ok(found) => {
            assert_eq!(found.len(), 2);
            assert_eq!(found[0].file.name, "notes.md");
            assert_eq!(found[1].file.name, "todo.txt");
        }
        Err(_) => panic!("expected results"),
    }
}

#[test]
fn assess_entry_on_given_lower_case_forms() {
    let entry = FileEntry::new("Milk.md".to_string(), "/n/Milk.md".to_string(), false, Some(7));
    let both = assess_entry(&entry, "milk.md", Some(("Buy Milk", "buy milk")), "milk", 4);
    match both {
        Some(result) => {
            assert_eq!(result.score, 15);
            assert_eq!(result.match_type, MatchType::Name);
            assert_eq!(result.snippet, "Buy Milk");
            assert_eq!(result.file.name, "Milk.md");
            assert_eq!(result.file.path, "/n/Milk.md");
            assert_eq!(result.file.last_modified, 7);
        }
        None => panic!("expected a match"),
    }
    let by_name = assess_entry(&entry, "milk.md", None, "milk", 4);
    assert!(matches!(by_name, Some(ref r) if r.score == 10 && r.snippet.is_empty()));
    let by_content = assess_entry(&entry, "other.md", Some(("Buy Milk", "buy milk")), "milk", 4);
    assert!(matches!(by_content, Some(ref r) if r.score == 5
        && r.match_type == MatchType::Content && r.snippet == "Buy Milk"));
    assert!(assess_entry(&entry, "other.md", Some(("Buy", "buy")), "milk", 4).is_none());
    let hidden = FileEntry::new(".milk".to_string(), "/n/.milk".to_string(), false, None);
    assert!(assess_entry(&hidden, ".milk", Some(("milk", "milk")), "milk", 4).is_none());
}

#[test]
fn lower_case_form_longer_than_the_content_gives_an_empty_window() {
    // Each U+0130 becomes two characters in lower case, so the match offset
    // in the lower-case form lies beyond the end of the content as read.
    let content = format!("{}x", "\u{130}".repeat(30));
    let found = search_entries(&vec![file("a.md", &content)], "x");
    assert_eq!(found.len(), 1);
    assert_eq!(found[0].match_type, MatchType::Content);
    assert_eq!(found[0].snippet, "...");
}

#[test]
fn match_type_tags() {
    assert_eq!(MatchType::Name.as_str(), "name");
    assert_eq!(MatchType::Content.as_str(), "content");
}
