use crate::enums::{EditCommand, EventModel, ReedlineEvent};
use vstd::prelude::*;

verus! {

/// One step of what a resolved command asks of the editor loop.
#[derive(Debug, PartialEq, Eq)]
pub enum ReedlineOption {
    /// A signal to the editor loop.
    Event(ReedlineEvent),
    /// An edit of the line buffer.
    Edit(EditCommand),
    /// More keystrokes are needed before anything can be done.
    Incomplete,
}

/// What a [`ReedlineOption`] stands for.
pub enum Instruction {
    Event(EventModel),
    Edit(EditCommand),
    Incomplete,
}

impl View for ReedlineOption {
    type V = Instruction;

    open spec fn view(&self) -> Instruction {
        match self {
            ReedlineOption::Event(event) => Instruction::Event(event@),
            ReedlineOption::Edit(edit) => Instruction::Edit(*edit),
            ReedlineOption::Incomplete => Instruction::Incomplete,
        }
    }
}

impl DeepView for ReedlineOption {
    type V = Instruction;

    open spec fn deep_view(&self) -> Instruction {
        self@
    }
}

/// A forward-only view of the keystrokes that are still pending, with one
/// keystroke of lookahead.
pub struct KeyCursor<'a> {
    keys: &'a [char],
    consumed: usize,
}

impl<'a> KeyCursor<'a> {
    /// The cursor never runs past the end of its keystrokes.
    #[verifier::type_invariant]
    spec fn within_keys(&self) -> bool {
        self.consumed <= self.keys@.len()
    }

    /// All the keystrokes that the cursor was made over.
    pub closed spec fn keys(&self) -> Seq<char> {
        self.keys@
    }

    /// How many keystrokes have been taken so far.
    pub closed spec fn taken(&self) -> nat {
        self.consumed as nat
    }

    /// The keystrokes that have not been taken yet.
    pub open spec fn remaining(&self) -> Seq<char> {
        self.keys().skip(self.taken() as int)
    }

    /// A cursor in front of the first of `keys`.
    pub fn new(keys: &'a [char]) -> (cursor: Self)
        ensures
            cursor.keys() == keys@,
            cursor.taken() == 0,
    {
        KeyCursor { keys, consumed: 0 }
    }

    /// The number of keystrokes taken so far.
    pub fn consumed(&self) -> (count: usize)
        ensures
            count == self.taken(),
            count <= self.keys().len(),
    {
        proof {
            use_type_invariant(self);
        }
        self.consumed
    }

    /// The next keystroke, which stays in place.
    pub fn peek(&self) -> (key: Option<char>)
        ensures
            self.taken() <= self.keys().len(),
            self.remaining().len() > 0 ==> key == Some(self.remaining()[0]),
            self.remaining().len() == 0 ==> key is None,
    {
        proof {
            use_type_invariant(self);
        }
        if self.consumed < self.keys.len() {
            Some(self.keys[self.consumed])
        } else {
            None
        }
    }

    /// Takes the next keystroke; at the end nothing is taken.
    pub fn next(&mut self) -> (key: Option<char>)
        ensures
            final(self).keys() == old(self).keys(),
            final(self).taken() <= final(self).keys().len(),
            old(self).remaining().len() > 0 ==> key == Some(old(self).remaining()[0]),
            old(self).remaining().len() > 0 ==> final(self).taken() == old(self).taken() + 1,
            old(self).remaining().len() == 0 ==> key is None,
            old(self).remaining().len() == 0 ==> final(self).taken() == old(self).taken(),
    {
        proof {
            use_type_invariant(&*self);
        }
        if self.consumed < self.keys.len() {
            let key = self.keys[self.consumed];
            self.consumed += 1;
            Some(key)
        } else {
            None
        }
    }
}

} // verus!
