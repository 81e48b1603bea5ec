use crate::edit_mode::vi::motion::{Motion, ViCharSearch};
use crate::edit_mode::vi::parser::{Instruction, KeyCursor, ReedlineOption};
use crate::edit_mode::vi::Vi;
use crate::enums::{EditCommand, EventModel, ReedlineEvent};
use vstd::prelude::*;

verus! {

/// A normal-mode command.
#[derive(Clone, Copy, Debug, PartialEq, Eq, Structural)]
pub enum Command {
    Incomplete,
    Delete,
    DeleteChar,
    ReplaceChar(char),
    SubstituteCharWithInsert,
    PasteAfter,
    PasteBefore,
    EnterViAppend,
    EnterViInsert,
    Undo,
    ChangeToLineEnd,
    DeleteToEnd,
    AppendToEnd,
    PrependToStart,
    RewriteCurrentLine,
    Change,
    HistorySearch,
    Switchcase,
    RepeatLastAction,
}

impl Command {
    /// The command that a single keystroke stands for, if it stands for one.
    pub open spec fn for_key(key: char) -> Option<Command> {
        if key == 'd' {
            Some(Command::Delete)
        } else if key == 'p' {
            Some(Command::PasteAfter)
        } else if key == 'P' {
            Some(Command::PasteBefore)
        } else if key == 'i' {
            Some(Command::EnterViInsert)
        } else if key == 'a' {
            Some(Command::EnterViAppend)
        } else if key == 'u' {
            Some(Command::Undo)
        } else if key == 'c' {
            Some(Command::Change)
        } else if key == 'x' {
            Some(Command::DeleteChar)
        } else if key == 's' {
            Some(Command::SubstituteCharWithInsert)
        } else if key == '?' {
            Some(Command::HistorySearch)
        } else if key == 'C' {
            Some(Command::ChangeToLineEnd)
        } else if key == 'D' {
            Some(Command::DeleteToEnd)
        } else if key == 'I' {
            Some(Command::PrependToStart)
        } else if key == 'A' {
            Some(Command::AppendToEnd)
        } else if key == 'S' {
            Some(Command::RewriteCurrentLine)
        } else if key == '~' {
            Some(Command::Switchcase)
        } else if key == '.' {
            Some(Command::RepeatLastAction)
        } else {
            None
        }
    }

    /// The command that the front of `keys` spells, `None` where it spells none.
    ///
    /// The replace key takes the keystroke after it as its operand and is
    /// incomplete without one.
    pub open spec fn parsed(keys: Seq<char>) -> Option<Command> {
        if keys.len() == 0 {
            None
        } else if keys[0] == 'r' {
            if keys.len() >= 2 {
                Some(Command::ReplaceChar(keys[1]))
            } else {
                Some(Command::Incomplete)
            }
        } else {
            Command::for_key(keys[0])
        }
    }

    /// How many keystrokes at the front of `keys` the parse takes.
    pub open spec fn parsed_len(keys: Seq<char>) -> nat {
        match Command::parsed(keys) {
            None => 0,
            Some(Command::ReplaceChar(_)) => 2,
            Some(_) => 1,
        }
    }

    /// Whether the command resolves only together with a motion.
    pub open spec fn needs_motion(self) -> bool {
        self is Delete || self is Change
    }

    /// The key that, typed twice, applies the command to the whole line.
    pub open spec fn doubling_key(self) -> Option<char> {
        match self {
            Command::Delete => Some('d'),
            Command::Change => Some('c'),
            _ => None,
        }
    }

    /// What the command asks of the editor when it stands alone.
    ///
    /// `previous` is the last resolved action, which the repeat command replays.
    pub open spec fn instructions(self, previous: Option<EventModel>) -> Seq<Instruction> {
        match self {
            Command::EnterViInsert => seq![Instruction::Event(EventModel::Repaint)],
            Command::EnterViAppend => seq![
                Instruction::Edit(EditCommand::MoveRight { select: false }),
            ],
            Command::PasteAfter => seq![Instruction::Edit(EditCommand::PasteCutBufferAfter)],
            Command::PasteBefore => seq![Instruction::Edit(EditCommand::PasteCutBufferBefore)],
            Command::Undo => seq![Instruction::Edit(EditCommand::Undo)],
            Command::ChangeToLineEnd => seq![Instruction::Edit(EditCommand::ClearToLineEnd)],
            Command::DeleteToEnd => seq![Instruction::Edit(EditCommand::CutToLineEnd)],
            Command::AppendToEnd => seq![
                Instruction::Edit(EditCommand::MoveToLineEnd { select: false }),
            ],
            Command::PrependToStart => seq![
                Instruction::Edit(EditCommand::MoveToLineStart { select: false }),
            ],
            Command::RewriteCurrentLine => seq![Instruction::Edit(EditCommand::CutCurrentLine)],
            Command::DeleteChar => seq![Instruction::Edit(EditCommand::CutChar)],
            Command::ReplaceChar(c) => seq![Instruction::Edit(EditCommand::ReplaceChar(c))],
            Command::SubstituteCharWithInsert => seq![Instruction::Edit(EditCommand::CutChar)],
            Command::HistorySearch => seq![Instruction::Event(EventModel::SearchHistory)],
            Command::Switchcase => seq![Instruction::Edit(EditCommand::SwitchcaseChar)],
            Command::Delete | Command::Change | Command::Incomplete => seq![
                Instruction::Incomplete,
            ],
            Command::RepeatLastAction => match previous {
                Some(event) => seq![Instruction::Event(event)],
                None => seq![],
            },
        }
    }

    /// The cut that a motion selects in the same way for a delete and for a
    /// change, where `last` is the remembered character search.
    ///
    /// `None` for the vertical motions, for a replay with nothing remembered,
    /// and for the motions on which the two commands differ.
    pub open spec fn shared_cut(motion: Motion, last: Option<ViCharSearch>) -> Option<EditCommand> {
        match motion {
            Motion::PreviousWord => Some(EditCommand::CutWordLeft),
            Motion::PreviousBigWord => Some(EditCommand::CutBigWordLeft),
            Motion::Start => Some(EditCommand::CutFromLineStart),
            Motion::Left => Some(EditCommand::Backspace),
            Motion::Right => Some(EditCommand::Delete),
            Motion::RightUntil(_) | Motion::RightBefore(_) | Motion::LeftUntil(_)
            | Motion::LeftBefore(_) => Some(motion.char_search()->0.cut()),
            Motion::ReplayCharSearch => match last {
                Some(search) => Some(search.cut()),
                None => None,
            },
            Motion::ReverseCharSearch => match last {
                Some(search) => Some(search.reversed().cut()),
                None => None,
            },
            _ => None,
        }
    }

    /// The edits of a delete over `motion`, `None` where the pair is unsupported.
    pub open spec fn delete_edits(motion: Motion, last: Option<ViCharSearch>) -> Option<
        Seq<EditCommand>,
    > {
        match motion {
            Motion::End => Some(seq![EditCommand::CutToLineEnd]),
            Motion::Line => Some(seq![EditCommand::CutCurrentLine]),
            Motion::NextWord => Some(seq![EditCommand::CutWordRightToNext]),
            Motion::NextBigWord => Some(seq![EditCommand::CutBigWordRightToNext]),
            Motion::NextWordEnd => Some(seq![EditCommand::CutWordRight]),
            Motion::NextBigWordEnd => Some(seq![EditCommand::CutBigWordRight]),
            _ => match Command::shared_cut(motion, last) {
                Some(cut) => Some(seq![cut]),
                None => None,
            },
        }
    }

    /// The edits of a change over `motion`, `None` where the pair is unsupported.
    pub open spec fn change_edits(motion: Motion, last: Option<ViCharSearch>) -> Option<
        Seq<EditCommand>,
    > {
        match motion {
            Motion::End => Some(seq![EditCommand::ClearToLineEnd]),
            Motion::Line => Some(
                seq![EditCommand::MoveToStart { select: false }, EditCommand::ClearToLineEnd],
            ),
            Motion::NextWord | Motion::NextWordEnd => Some(seq![EditCommand::CutWordRight]),
            Motion::NextBigWord | Motion::NextBigWordEnd => Some(
                seq![EditCommand::CutBigWordRight],
            ),
            _ => match Command::shared_cut(motion, last) {
                Some(cut) => Some(seq![cut]),
                None => None,
            },
        }
    }

    /// What the command asks of the editor when combined with `motion`, `None`
    /// where the pair is unsupported.
    ///
    /// A delete asks for its edits; a change asks for its edits and then for a
    /// repaint. No other command combines with a motion.
    pub open spec fn instructions_with_motion(
        self,
        motion: Motion,
        last: Option<ViCharSearch>,
    ) -> Option<Seq<Instruction>> {
        match self {
            Command::Delete => match Command::delete_edits(motion, last) {
                Some(edits) => Some(edits.map_values(|edit: EditCommand| Instruction::Edit(edit))),
                None => None,
            },
            Command::Change => match Command::change_edits(motion, last) {
                Some(edits) => Some(
                    edits.map_values(|edit: EditCommand| Instruction::Edit(edit)).push(
                        Instruction::Event(EventModel::Repaint),
                    ),
                ),
                None => None,
            },
            _ => None,
        }
    }

    /// The character search that is remembered once the command has been
    /// combined with `motion`: the motion's own where a delete or a change meets
    /// a character search, else `last` as it was.
    pub open spec fn char_search_after(
        self,
        motion: Motion,
        last: Option<ViCharSearch>,
    ) -> Option<ViCharSearch> {
        if self.needs_motion() && motion.char_search() is Some {
            motion.char_search()
        } else {
            last
        }
    }
}

/// Parses the command at the front of the pending keystrokes.
///
/// Takes exactly the keystrokes that spell the command and leaves the cursor
/// untouched where they spell none.
pub fn parse_command(input: &mut KeyCursor) -> (command: Option<Command>)
    ensures
        command == Command::parsed(old(input).remaining()),
        final(input).keys() == old(input).keys(),
        final(input).taken() == old(input).taken() + Command::parsed_len(old(input).remaining()),
        final(input).taken() <= final(input).keys().len(),
{
    match input.peek() {
        Some('d') => {
            let _ = input.next();
            Some(Command::Delete)
        },
        Some('p') => {
            let _ = input.next();
            Some(Command::PasteAfter)
        },
        Some('P') => {
            let _ = input.next();
            Some(Command::PasteBefore)
        },
        Some('i') => {
            let _ = input.next();
            Some(Command::EnterViInsert)
        },
        Some('a') => {
            let _ = input.next();
            Some(Command::EnterViAppend)
        },
        Some('u') => {
            let _ = input.next();
            Some(Command::Undo)
        },
        Some('c') => {
            let _ = input.next();
            Some(Command::Change)
        },
        Some('x') => {
            let _ = input.next();
            Some(Command::DeleteChar)
        },
        Some('r') => {
            let _ = input.next();
            match input.next() {
                Some(c) => Some(Command::ReplaceChar(c)),
                None => Some(Command::Incomplete),
            }
        },
        Some('s') => {
            let _ = input.next();
            Some(Command::SubstituteCharWithInsert)
        },
        Some('?') => {
            let _ = input.next();
            Some(Command::HistorySearch)
        },
        Some('C') => {
            let _ = input.next();
            Some(Command::ChangeToLineEnd)
        },
        Some('D') => {
            let _ = input.next();
            Some(Command::DeleteToEnd)
        },
        Some('I') => {
            let _ = input.next();
            Some(Command::PrependToStart)
        },
        Some('A') => {
            let _ = input.next();
            Some(Command::AppendToEnd)
        },
        Some('S') => {
            let _ = input.next();
            Some(Command::RewriteCurrentLine)
        },
        Some('~') => {
            let _ = input.next();
            Some(Command::Switchcase)
        },
        Some('.') => {
            let _ = input.next();
            Some(Command::RepeatLastAction)
        },
        _ => None,
    }
}

impl Command {
    /// The key that the caller compares with the next keystroke to detect a
    /// doubled command (`dd`, `cc`).
    pub fn whole_line_char(&self) -> (key: Option<char>)
        ensures
            key == self.doubling_key(),
    {
        match self {
            Command::Delete => Some('d'),
            Command::Change => Some('c'),
            _ => None,
        }
    }

    /// Whether the command must be paired with a motion before it resolves.
    pub fn requires_motion(&self) -> (needed: bool)
        ensures
            needed == self.needs_motion(),
            needed <==> (*self == Command::Delete || *self == Command::Change),
    {
        matches!(self, Command::Delete | Command::Change)
    }

    /// Resolves the command on its own.
    ///
    /// The session state is read, never changed.
    pub fn to_reedline(&self, vi_state: &mut Vi) -> (options: Vec<ReedlineOption>)
        ensures
            options.deep_view() == self.instructions(old(vi_state).previous.deep_view()),
            *final(vi_state) == *old(vi_state),
    {
        match self {
            Self::EnterViInsert => vec![ReedlineOption::Event(ReedlineEvent::Repaint)],
            Self::EnterViAppend => vec![ReedlineOption::Edit(EditCommand::MoveRight {
                select: false,
            })],
            Self::PasteAfter => vec![ReedlineOption::Edit(EditCommand::PasteCutBufferAfter)],
            Self::PasteBefore => vec![ReedlineOption::Edit(EditCommand::PasteCutBufferBefore)],
            Self::Undo => vec![ReedlineOption::Edit(EditCommand::Undo)],
            Self::ChangeToLineEnd => vec![ReedlineOption::Edit(EditCommand::ClearToLineEnd)],
            Self::DeleteToEnd => vec![ReedlineOption::Edit(EditCommand::CutToLineEnd)],
            Self::AppendToEnd => vec![ReedlineOption::Edit(EditCommand::MoveToLineEnd {
                select: false,
            })],
            Self::PrependToStart => vec![ReedlineOption::Edit(EditCommand::MoveToLineStart {
                select: false,
            })],
            Self::RewriteCurrentLine => vec![ReedlineOption::Edit(EditCommand::CutCurrentLine)],
            Self::DeleteChar => vec![ReedlineOption::Edit(EditCommand::CutChar)],
            Self::ReplaceChar(c) => {
                vec![ReedlineOption::Edit(EditCommand::ReplaceChar(*c))]
            },
            Self::SubstituteCharWithInsert => vec![ReedlineOption::Edit(EditCommand::CutChar)],
            Self::HistorySearch => vec![ReedlineOption::Event(ReedlineEvent::SearchHistory)],
            Self::Switchcase => vec![ReedlineOption::Edit(EditCommand::SwitchcaseChar)],
            // A command that needs a motion cannot be resolved here.
            Self::Delete | Self::Change | Self::Incomplete => vec![ReedlineOption::Incomplete],
            Command::RepeatLastAction => match &vi_state.previous {
                Some(event) => vec![ReedlineOption::Event(event.clone())],
                None => vec![],
            },
        }
    }
    /// Resolves the command together with a motion; `None` where the pair is
    /// unsupported.
    ///
    /// A character-search motion under a delete or a change is remembered in
    /// the session state; nothing else in the state changes.
    pub fn to_reedline_with_motion(&self, motion: &Motion, vi_state: &mut Vi) -> (options: Option<
        Vec<ReedlineOption>,
    >)
        ensures
            options.deep_view() == self.instructions_with_motion(
                *motion,
                old(vi_state).last_char_search,
            ),
            final(vi_state).last_char_search == self.char_search_after(
                *motion,
                old(vi_state).last_char_search,
            ),
            final(vi_state).previous == old(vi_state).previous,
    {
        match self {
            Self::Delete => match motion {
                Motion::End => Some(vec![ReedlineOption::Edit(EditCommand::CutToLineEnd)]),
                Motion::Line => Some(vec![ReedlineOption::Edit(EditCommand::CutCurrentLine)]),
                Motion::NextWord => {
                    Some(vec![ReedlineOption::Edit(EditCommand::CutWordRightToNext)])
                },
                Motion::NextBigWord => Some(
                    vec![ReedlineOption::Edit(EditCommand::CutBigWordRightToNext)],
                ),
                Motion::NextWordEnd => Some(vec![ReedlineOption::Edit(EditCommand::CutWordRight)]),
                Motion::NextBigWordEnd => {
                    Some(vec![ReedlineOption::Edit(EditCommand::CutBigWordRight)])
                },
                Motion::PreviousWord => Some(vec![ReedlineOption::Edit(EditCommand::CutWordLeft)]),
                Motion::PreviousBigWord => {
                    Some(vec![ReedlineOption::Edit(EditCommand::CutBigWordLeft)])
                },
                Motion::RightUntil(c) => {
                    vi_state.last_char_search = Some(ViCharSearch::ToRight(*c));
                    Some(vec![ReedlineOption::Edit(EditCommand::CutRightUntil(*c))])
                },
                Motion::RightBefore(c) => {
                    vi_state.last_char_search = Some(ViCharSearch::TillRight(*c));
                    Some(vec![ReedlineOption::Edit(EditCommand::CutRightBefore(*c))])
                },
                Motion::LeftUntil(c) => {
                    vi_state.last_char_search = Some(ViCharSearch::ToLeft(*c));
                    Some(vec![ReedlineOption::Edit(EditCommand::CutLeftUntil(*c))])
                },
                Motion::LeftBefore(c) => {
                    vi_state.last_char_search = Some(ViCharSearch::TillLeft(*c));
                    Some(vec![ReedlineOption::Edit(EditCommand::CutLeftBefore(*c))])
                },
                Motion::Start => Some(vec![ReedlineOption::Edit(EditCommand::CutFromLineStart)]),
                Motion::Left => Some(vec![ReedlineOption::Edit(EditCommand::Backspace)]),
                Motion::Right => Some(vec![ReedlineOption::Edit(EditCommand::Delete)]),
                Motion::Up => None,
                Motion::Down => None,
                Motion::ReplayCharSearch => match &vi_state.last_char_search {
                    Some(char_search) => Some(vec![ReedlineOption::Edit(char_search.to_cut())]),
                    None => None,
                },
                Motion::ReverseCharSearch => match &vi_state.last_char_search {
                    Some(char_search) => Some(
                        vec![ReedlineOption::Edit(char_search.reverse().to_cut())],
                    ),
                    None => None,
                },
            },
            Self::Change => {
                let op = match motion {
                    Motion::End => Some(vec![ReedlineOption::Edit(EditCommand::ClearToLineEnd)]),
                    Motion::Line => Some(
                        vec![
                            ReedlineOption::Edit(EditCommand::MoveToStart { select: false }),
                            ReedlineOption::Edit(EditCommand::ClearToLineEnd),
                        ],
                    ),
                    Motion::NextWord => Some(vec![ReedlineOption::Edit(EditCommand::CutWordRight)]),
                    Motion::NextBigWord => {
                        Some(vec![ReedlineOption::Edit(EditCommand::CutBigWordRight)])
                    },
                    Motion::NextWordEnd => {
                        Some(vec![ReedlineOption::Edit(EditCommand::CutWordRight)])
                    },
                    Motion::NextBigWordEnd => {
                        Some(vec![ReedlineOption::Edit(EditCommand::CutBigWordRight)])
                    },
                    Motion::PreviousWord => {
                        Some(vec![ReedlineOption::Edit(EditCommand::CutWordLeft)])
                    },
                    Motion::PreviousBigWord => {
                        Some(vec![ReedlineOption::Edit(EditCommand::CutBigWordLeft)])
                    },
                    Motion::RightUntil(c) => {
                        vi_state.last_char_search = Some(ViCharSearch::ToRight(*c));
                        Some(vec![ReedlineOption::Edit(EditCommand::CutRightUntil(*c))])
                    },
                    Motion::RightBefore(c) => {
                        vi_state.last_char_search = Some(ViCharSearch::TillRight(*c));
                        Some(vec![ReedlineOption::Edit(EditCommand::CutRightBefore(*c))])
                    },
                    Motion::LeftUntil(c) => {
                        vi_state.last_char_search = Some(ViCharSearch::ToLeft(*c));
                        Some(vec![ReedlineOption::Edit(EditCommand::CutLeftUntil(*c))])
                    },
                    Motion::LeftBefore(c) => {
                        vi_state.last_char_search = Some(ViCharSearch::TillLeft(*c));
                        Some(vec![ReedlineOption::Edit(EditCommand::CutLeftBefore(*c))])
                    },
                    Motion::Start => {
                        Some(vec![ReedlineOption::Edit(EditCommand::CutFromLineStart)])
                    },
                    Motion::Left => Some(vec![ReedlineOption::Edit(EditCommand::Backspace)]),
                    Motion::Right => Some(vec![ReedlineOption::Edit(EditCommand::Delete)]),
                    Motion::Up => None,
                    Motion::Down => None,
                    Motion::ReplayCharSearch => match &vi_state.last_char_search {
                        Some(char_search) => Some(
                            vec![ReedlineOption::Edit(char_search.to_cut())],
                        ),
                        None => None,
                    },
                    Motion::ReverseCharSearch => match &vi_state.last_char_search {
                        Some(char_search) => Some(
                            vec![ReedlineOption::Edit(char_search.reverse().to_cut())],
                        ),
                        None => None,
                    },
                };
                // The mode change that a change brings must show at once.
                match op {
                    Some(mut options) => {
                        options.push(ReedlineOption::Event(ReedlineEvent::Repaint));
                        Some(options)
                    },
                    None => None,
                }
            },
            _ => None,
        }
    }
}

} // verus!
