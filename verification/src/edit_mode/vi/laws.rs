use crate::edit_mode::vi::command::Command;
use crate::edit_mode::vi::motion::{Motion, ViCharSearch};
use crate::edit_mode::vi::parser::Instruction;
use crate::enums::EventModel;
use vstd::prelude::*;

verus! {

/// A keystroke that stands for a command on its own is parsed to that command
/// and is the only keystroke taken. A leading keystroke that starts no command
/// gives no match and nothing is taken, and so does the empty input.
pub proof fn lemma_single_key_parse(keys: Seq<char>)
    ensures
        keys.len() > 0 && Command::for_key(keys[0]) is Some ==> Command::parsed(keys)
            == Command::for_key(keys[0]) && Command::parsed_len(keys) == 1,
        keys.len() > 0 && keys[0] != 'r' && Command::for_key(keys[0]) is None ==> Command::parsed(
            keys,
        ) is None && Command::parsed_len(keys) == 0,
        keys.len() == 0 ==> Command::parsed(keys) is None && Command::parsed_len(keys) == 0,
{
}

/// The replace key alone is incomplete and is the one keystroke taken. Followed
/// by any keystroke it replaces with that keystroke, and both are taken.
pub proof fn lemma_replace_parse(keys: Seq<char>)
    requires
        keys.len() > 0,
        keys[0] == 'r',
    ensures
        keys.len() == 1 ==> Command::parsed(keys) == Some(Command::Incomplete)
            && Command::parsed_len(keys) == 1,
        keys.len() >= 2 ==> Command::parsed(keys) == Some(Command::ReplaceChar(keys[1]))
            && Command::parsed_len(keys) == 2,
{
}

/// The parse takes no more keystrokes than there are, and a complete command
/// is decided by the keystrokes taken: whatever follows them does not change
/// the command or how many are taken.
pub proof fn lemma_parse_is_decided_by_what_it_takes(keys: Seq<char>, rest: Seq<char>)
    requires
        Command::parsed(keys) is Some,
        Command::parsed(keys) != Some(Command::Incomplete),
    ensures
        Command::parsed_len(keys) <= keys.len(),
        Command::parsed(keys.take(Command::parsed_len(keys) as int) + rest) == Command::parsed(
            keys,
        ),
        Command::parsed_len(keys.take(Command::parsed_len(keys) as int) + rest)
            == Command::parsed_len(keys),
{
}

/// Only a delete and a change need a motion. They are the commands with a
/// doubling key, and alone they resolve to the incomplete marker.
pub proof fn lemma_needs_motion(command: Command, previous: Option<EventModel>)
    ensures
        command.needs_motion() <==> command == Command::Delete || command == Command::Change,
        command.needs_motion() <==> command.doubling_key() is Some,
        command.needs_motion() ==> command.instructions(previous) == seq![Instruction::Incomplete],
{
}

/// The repeat command with nothing to repeat asks for nothing. With a previous
/// action it asks for exactly that action and nothing else.
pub proof fn lemma_repeat_replays_previous(previous: Option<EventModel>)
    ensures
        previous is None ==> Command::RepeatLastAction.instructions(previous).len() == 0,
        previous matches Some(event) ==> Command::RepeatLastAction.instructions(previous)
            == seq![Instruction::Event(event)],
{
}

/// A vertical motion combines with no command and leaves the remembered
/// character search as it was.
pub proof fn lemma_vertical_motion_unsupported(
    command: Command,
    motion: Motion,
    last: Option<ViCharSearch>,
)
    requires
        motion == Motion::Up || motion == Motion::Down,
    ensures
        command.instructions_with_motion(motion, last) is None,
        command.char_search_after(motion, last) == last,
{
}

/// A command that needs no motion combines with none, and the remembered
/// character search stays as it was.
pub proof fn lemma_only_delete_and_change_take_motions(
    command: Command,
    motion: Motion,
    last: Option<ViCharSearch>,
)
    requires
        !command.needs_motion(),
    ensures
        command.instructions_with_motion(motion, last) is None,
        command.char_search_after(motion, last) == last,
{
}

/// A delete and a change support the same motions. The only ones they refuse
/// are the vertical motions and a replay with nothing remembered.
pub proof fn lemma_supported_motions(motion: Motion, last: Option<ViCharSearch>)
    ensures
        Command::Delete.instructions_with_motion(motion, last) is Some
            <==> Command::Change.instructions_with_motion(motion, last) is Some,
        Command::Delete.instructions_with_motion(motion, last) is None <==> motion == Motion::Up
            || motion == Motion::Down || (last is None && (motion == Motion::ReplayCharSearch
            || motion == Motion::ReverseCharSearch)),
{
}

/// Reversing a character search changes its direction and nothing else, and
/// reversing twice gives the search back.
pub proof fn lemma_reverse_mirrors_direction(search: ViCharSearch)
    ensures
        search.reversed().is_rightward() != search.is_rightward(),
        search.reversed().is_inclusive() == search.is_inclusive(),
        search.reversed().target() == search.target(),
        search.reversed().reversed() == search,
{
}

/// A character search under a delete or a change is remembered, whatever was
/// remembered before. A replay after it asks for the very instructions of the
/// search itself and keeps it remembered. A reversed replay asks for the cut of
/// the mirrored search, with the same target.
pub proof fn lemma_char_search_replay(
    command: Command,
    motion: Motion,
    last: Option<ViCharSearch>,
)
    requires
        command.needs_motion(),
        motion.char_search() is Some,
    ensures
        command.char_search_after(motion, last) == motion.char_search(),
        command.instructions_with_motion(Motion::ReplayCharSearch, motion.char_search())
            == command.instructions_with_motion(motion, last),
        command.char_search_after(Motion::ReplayCharSearch, motion.char_search())
            == motion.char_search(),
        command.char_search_after(Motion::ReverseCharSearch, motion.char_search())
            == motion.char_search(),
        Command::delete_edits(Motion::ReverseCharSearch, motion.char_search()) == Some(
            seq![motion.char_search()->0.reversed().cut()],
        ),
        Command::change_edits(Motion::ReverseCharSearch, motion.char_search()) == Some(
            seq![motion.char_search()->0.reversed().cut()],
        ),
{
}

/// The remembered character search changes only where a delete or a change
/// meets a character search, and it is never forgotten.
pub proof fn lemma_char_search_is_never_forgotten(
    command: Command,
    motion: Motion,
    last: Option<ViCharSearch>,
)
    ensures
        last is Some ==> command.char_search_after(motion, last) is Some,
        command.char_search_after(motion, last) != last ==> command.needs_motion()
            && motion.char_search() is Some,
{
}

/// Every change that resolves asks for its edits and then, last, for a
/// repaint. Every delete that resolves asks for one edit and for no repaint.
pub proof fn lemma_change_ends_with_repaint(motion: Motion, last: Option<ViCharSearch>)
    ensures
        Command::Change.instructions_with_motion(motion, last) matches Some(instructions)
            ==> instructions.len() >= 2 && instructions.last() == Instruction::Event(
            EventModel::Repaint,
        ) && forall|i: int| 0 <= i < instructions.len() - 1 ==> instructions[i] is Edit,
        Command::Delete.instructions_with_motion(motion, last) matches Some(instructions)
            ==> instructions.len() == 1 && instructions[0] is Edit,
{
}

} // verus!
