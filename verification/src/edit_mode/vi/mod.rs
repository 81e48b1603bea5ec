use crate::edit_mode::vi::motion::ViCharSearch;
use crate::enums::ReedlineEvent;
use vstd::prelude::*;

pub mod command;
pub mod laws;
pub mod motion;
pub mod parser;

verus! {

/// What a Vi editing session remembers between keystrokes.
pub struct Vi {
    /// The last action that was resolved in full, kept for `.`.
    pub previous: Option<ReedlineEvent>,
    /// The last character search that was combined with a delete or a change.
    pub last_char_search: Option<ViCharSearch>,
}

impl Default for Vi {
    /// A fresh session remembers nothing.
    fn default() -> (state: Self)
        ensures
            state.previous is None,
            state.last_char_search is None,
    {
        Vi { previous: None, last_char_search: None }
    }
}

} // verus!
