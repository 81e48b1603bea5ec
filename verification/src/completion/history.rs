use crate::text::utf8_len;
use vstd::prelude::*;

verus! {

/// A range of the line, in bytes, from `start` up to `end`.
#[derive(Clone, Copy, Debug, PartialEq, Eq, Structural)]
pub struct Span {
    pub start: usize,
    pub end: usize,
}

/// A replacement that is offered for a span of the line.
#[derive(Debug, PartialEq, Eq)]
pub struct Suggestion {
    /// The text to put in place of the span.
    pub value: String,
    /// What the menu says about the suggestion.
    pub description: Option<String>,
    /// Further text for the menu to show.
    pub extra: Option<Vec<String>>,
    /// The part of the line that the value replaces.
    pub span: Span,
    /// Whether a space follows the value once it is accepted.
    pub append_whitespace: bool,
}

/// What a [`Suggestion`] stands for.
pub struct SuggestionModel {
    pub value: Seq<char>,
    pub description: Option<Seq<char>>,
    pub extra: Option<Seq<Seq<char>>>,
    pub span: Span,
    pub append_whitespace: bool,
}

impl View for Suggestion {
    type V = SuggestionModel;

    open spec fn view(&self) -> SuggestionModel {
        SuggestionModel {
            value: self.value@,
            description: self.description.deep_view(),
            extra: self.extra.deep_view(),
            span: self.span,
            append_whitespace: self.append_whitespace,
        }
    }
}

impl DeepView for Suggestion {
    type V = SuggestionModel;

    open spec fn deep_view(&self) -> SuggestionModel {
        self@
    }
}

/// The suggestion that puts a history entry in place of the whole `line`, where
/// the line ends at byte `pos` of the buffer.
pub open spec fn history_suggestion(line: Seq<char>, pos: usize, value: Seq<char>)
    -> SuggestionModel {
    SuggestionModel {
        value,
        description: None,
        extra: None,
        span: Span { start: (pos - utf8_len(line)) as usize, end: pos },
        append_whitespace: false,
    }
}

/// Offers the history entry `value` in place of the whole `line`, which ends
/// at byte `pos`.
pub fn create_suggestion(line: &str, pos: usize, value: &str) -> (suggestion: Suggestion)
    requires
        utf8_len(line@) <= pos,
    ensures
        suggestion@ == history_suggestion(line@, pos, value@),
{
    let span = Span { start: pos - line.len(), end: pos };

    Suggestion {
        value: value.to_owned(),
        description: None,
        extra: None,
        span,
        append_whitespace: false,
    }
}

/// Offers each of the history entries found, in the order they were found in,
/// in place of the whole `line`, which ends at byte `pos`.
pub fn create_suggestions(line: &str, pos: usize, values: &Vec<String>) -> (suggestions: Vec<
    Suggestion,
>)
    requires
        utf8_len(line@) <= pos,
    ensures
        suggestions.deep_view() == values.deep_view().map_values(
            |value: Seq<char>| history_suggestion(line@, pos, value),
        ),
{
    let mut suggestions: Vec<Suggestion> = Vec::new();
    let mut i: usize = 0;
    while i < values.len()
        invariant
            i <= values.len(),
            suggestions.len() == i,
            utf8_len(line@) <= pos,
            forall|j: int|
                0 <= j < i ==> suggestions[j]@ == history_suggestion(line@, pos, values[j]@),
        decreases values.len() - i,
    {
        suggestions.push(create_suggestion(line, pos, values[i].as_str()));
        i += 1;
    }
    assert(suggestions.deep_view() =~= values.deep_view().map_values(
        |value: Seq<char>| history_suggestion(line@, pos, value),
    ));
    suggestions
}

} // verus!
