use vstd::prelude::*;

verus! {

/// A primitive edit of the line buffer.
#[derive(Clone, Copy, Debug, PartialEq, Eq, Structural)]
pub enum EditCommand {
    /// Move to the start of the buffer.
    MoveToStart { select: bool },
    /// Move to the start of the current line.
    MoveToLineStart { select: bool },
    /// Move to the end of the current line.
    MoveToLineEnd { select: bool },
    /// Move one character to the right.
    MoveRight { select: bool },
    /// Delete the character before the cursor.
    Backspace,
    /// Delete the character under the cursor.
    Delete,
    /// Cut the character under the cursor.
    CutChar,
    /// Replace the character under the cursor.
    ReplaceChar(char),
    /// Cut the whole current line.
    CutCurrentLine,
    /// Cut from the start of the current line to the cursor.
    CutFromLineStart,
    /// Cut from the cursor to the end of the current line.
    CutToLineEnd,
    /// Delete from the cursor to the end of the current line.
    ClearToLineEnd,
    /// Cut the word to the left of the cursor.
    CutWordLeft,
    /// Cut the whitespace-delimited word to the left of the cursor.
    CutBigWordLeft,
    /// Cut up to the end of the word to the right of the cursor.
    CutWordRight,
    /// Cut up to the end of the whitespace-delimited word to the right.
    CutBigWordRight,
    /// Cut up to the start of the next word.
    CutWordRightToNext,
    /// Cut up to the start of the next whitespace-delimited word.
    CutBigWordRightToNext,
    /// Paste the cut buffer before the cursor.
    PasteCutBufferBefore,
    /// Paste the cut buffer after the cursor.
    PasteCutBufferAfter,
    /// Switch the case of the character under the cursor.
    SwitchcaseChar,
    /// Undo the previous edit.
    Undo,
    /// Cut to the right up to and including the next such character.
    CutRightUntil(char),
    /// Cut to the right up to, not including, the next such character.
    CutRightBefore(char),
    /// Cut to the left up to and including the previous such character.
    CutLeftUntil(char),
    /// Cut to the left up to, not including, the previous such character.
    CutLeftBefore(char),
}

/// A signal to the editor loop.
#[derive(Debug, PartialEq, Eq)]
pub enum ReedlineEvent {
    /// Redraw the prompt and the buffer.
    Repaint,
    /// Start a search through the history.
    SearchHistory,
    /// Run these edits in order.
    Edit(Vec<EditCommand>),
    /// Handle these events in order.
    Multiple(Vec<ReedlineEvent>),
}

/// What a [`ReedlineEvent`] stands for, free of how its lists are stored.
pub enum EventModel {
    Repaint,
    SearchHistory,
    Edit(Seq<EditCommand>),
    Multiple(Seq<EventModel>),
}

impl View for ReedlineEvent {
    type V = EventModel;

    open spec fn view(&self) -> EventModel
        decreases self,
    {
        match self {
            ReedlineEvent::Repaint => EventModel::Repaint,
            ReedlineEvent::SearchHistory => EventModel::SearchHistory,
            ReedlineEvent::Edit(edits) => EventModel::Edit(edits@),
            ReedlineEvent::Multiple(events) => EventModel::Multiple(
                Seq::new(
                    events.len() as nat,
                    |i: int|
                        if 0 <= i < events.len() {
                            events[i].view()
                        } else {
                            EventModel::Repaint
                        },
                ),
            ),
        }
    }
}

impl DeepView for ReedlineEvent {
    type V = EventModel;

    open spec fn deep_view(&self) -> EventModel {
        self@
    }
}

impl Clone for ReedlineEvent {
    /// A deep copy: the copy stands for the same event.
    fn clone(&self) -> (copy: Self)
        ensures
            copy@ == self@,
        decreases self,
    {
        match self {
            ReedlineEvent::Repaint => ReedlineEvent::Repaint,
            ReedlineEvent::SearchHistory => ReedlineEvent::SearchHistory,
            ReedlineEvent::Edit(edits) => {
                let copied = edits.clone();
                assert(copied@ =~= edits@);
                ReedlineEvent::Edit(copied)
            },
            ReedlineEvent::Multiple(events) => {
                let mut copied: Vec<ReedlineEvent> = Vec::new();
                let mut i: usize = 0;
                while i < events.len()
                    invariant
                        i <= events.len(),
                        copied.len() == i,
                        decreases_to!(self => events),
                        forall|j: int| 0 <= j < i ==> copied[j]@ == events[j]@,
                    decreases events.len() - i,
                {
                    proof {
                        vstd::std_specs::vec::axiom_vec_index_decreases(*events, i as int);
                    }
                    copied.push(events[i].clone());
                    i += 1;
                }
                let copy = ReedlineEvent::Multiple(copied);
                assert(copy@->Multiple_0 =~= self@->Multiple_0);
                copy
            },
        }
    }
}

} // verus!
