use crate::enums::EditCommand;
use vstd::prelude::*;

verus! {

/// The span that a command acts over, as parsed from the keystrokes that follow it.
#[derive(Clone, Copy, Debug, PartialEq, Eq, Structural)]
pub enum Motion {
    Left,
    Right,
    Up,
    Down,
    NextWord,
    NextBigWord,
    NextWordEnd,
    NextBigWordEnd,
    PreviousWord,
    PreviousBigWord,
    Line,
    Start,
    End,
    RightUntil(char),
    RightBefore(char),
    LeftUntil(char),
    LeftBefore(char),
    ReplayCharSearch,
    ReverseCharSearch,
}

/// The last character search that was used in a cut.
#[derive(Clone, Copy, Debug, PartialEq, Eq, Structural)]
pub enum ViCharSearch {
    /// To the right, up to and including the character.
    ToRight(char),
    /// To the right, up to but not including the character.
    TillRight(char),
    /// To the left, up to and including the character.
    ToLeft(char),
    /// To the left, up to but not including the character.
    TillLeft(char),
}

impl Motion {
    /// The search that this motion performs, if it searches for a character.
    pub open spec fn char_search(self) -> Option<ViCharSearch> {
        match self {
            Motion::RightUntil(c) => Some(ViCharSearch::ToRight(c)),
            Motion::RightBefore(c) => Some(ViCharSearch::TillRight(c)),
            Motion::LeftUntil(c) => Some(ViCharSearch::ToLeft(c)),
            Motion::LeftBefore(c) => Some(ViCharSearch::TillLeft(c)),
            _ => None,
        }
    }
}

impl ViCharSearch {
    /// The character searched for.
    pub open spec fn target(self) -> char {
        match self {
            ViCharSearch::ToRight(c) => c,
            ViCharSearch::TillRight(c) => c,
            ViCharSearch::ToLeft(c) => c,
            ViCharSearch::TillLeft(c) => c,
        }
    }

    /// Whether the search runs to the right.
    pub open spec fn is_rightward(self) -> bool {
        self is ToRight || self is TillRight
    }

    /// Whether the search takes in the character it finds.
    pub open spec fn is_inclusive(self) -> bool {
        self is ToRight || self is ToLeft
    }

    /// The search with the given direction, reach and target.
    pub open spec fn from_parts(rightward: bool, inclusive: bool, target: char) -> ViCharSearch {
        if rightward {
            if inclusive {
                ViCharSearch::ToRight(target)
            } else {
                ViCharSearch::TillRight(target)
            }
        } else {
            if inclusive {
                ViCharSearch::ToLeft(target)
            } else {
                ViCharSearch::TillLeft(target)
            }
        }
    }

    /// The same search in the other direction.
    pub open spec fn reversed(self) -> ViCharSearch {
        ViCharSearch::from_parts(!self.is_rightward(), self.is_inclusive(), self.target())
    }

    /// The cut that covers what this search passes over.
    pub open spec fn cut(self) -> EditCommand {
        match self {
            ViCharSearch::ToRight(c) => EditCommand::CutRightUntil(c),
            ViCharSearch::TillRight(c) => EditCommand::CutRightBefore(c),
            ViCharSearch::ToLeft(c) => EditCommand::CutLeftUntil(c),
            ViCharSearch::TillLeft(c) => EditCommand::CutLeftBefore(c),
        }
    }

    /// Mirrors the direction and keeps the reach and the target character.
    pub fn reverse(&self) -> (mirrored: Self)
        ensures
            mirrored == self.reversed(),
    {
        match self {
            ViCharSearch::ToRight(c) => ViCharSearch::ToLeft(*c),
            ViCharSearch::TillRight(c) => ViCharSearch::TillLeft(*c),
            ViCharSearch::ToLeft(c) => ViCharSearch::ToRight(*c),
            ViCharSearch::TillLeft(c) => ViCharSearch::TillRight(*c),
        }
    }

    /// The cut primitive that matches this search, carrying its target.
    pub fn to_cut(&self) -> (edit: EditCommand)
        ensures
            edit == self.cut(),
    {
        match self {
            ViCharSearch::ToRight(c) => EditCommand::CutRightUntil(*c),
            ViCharSearch::TillRight(c) => EditCommand::CutRightBefore(*c),
            ViCharSearch::ToLeft(c) => EditCommand::CutLeftUntil(*c),
            ViCharSearch::TillLeft(c) => EditCommand::CutLeftBefore(*c),
        }
    }
}

} // verus!
