use reedline::{create_suggestion, create_suggestions, Span, Suggestion};

#[test]
fn suggestion_replaces_the_whole_line() {
    let suggestion = create_suggestion("git", 3, "git status");
    assert_eq!(
        suggestion,
        Suggestion {
            value: "git status".to_owned(),
            description: None,
            extra: None,
            span: Span { start: 0, end: 3 },
            append_whitespace: false,
        }
    );
}

#[test]
fn span_starts_where_the_line_starts_in_the_buffer() {
    let suggestion = create_suggestion("st", 10, "status");
    assert_eq!(suggestion.span, Span { start: 8, end: 10 });
}

#[test]
fn span_counts_the_line_in_bytes() {
    let suggestion = create_suggestion("é", 5, "école");
    assert_eq!(suggestion.span, Span { start: 3, end: 5 });
    assert_eq!(suggestion.value, "école");
}

#[test]
fn empty_line_gives_an_empty_span() {
    let suggestion = create_suggestion("", 0, "ls");
    assert_eq!(suggestion.span, Span { start: 0, end: 0 });
    let suggestion = create_suggestion("", 7, "ls");
    assert_eq!(suggestion.span, Span { start: 7, end: 7 });
}

#[test]
fn suggestions_keep_the_order_of_the_entries() {
    let values = vec!["recent match".to_owned(), "old match".to_owned()];
    let suggestions = create_suggestions("match", 5, &values);
    let actual: Vec<String> = suggestions.iter().map(|s| s.value.clone()).collect();
    assert_eq!(actual, vec!["recent match", "old match"]);
    for suggestion in &suggestions {
        assert_eq!(suggestion.span, Span { start: 0, end: 5 });
        assert_eq!(suggestion.description, None);
        assert_eq!(suggestion.extra, None);
        assert!(!suggestion.append_whitespace);
    }
}

#[test]
fn no_entries_give_no_suggestions() {
    assert_eq!(create_suggestions("any", 3, &vec![]), vec![]);
}
