use reedline::{parse_command, Command, KeyCursor};

fn parse(keys: &[char]) -> (Option<Command>, usize) {
    let mut input = KeyCursor::new(keys);
    let command = parse_command(&mut input);
    (command, input.consumed())
}

#[test]
fn every_single_key_command_takes_one_key() {
    let table = [
        ('d', Command::Delete),
        ('p', Command::PasteAfter),
        ('P', Command::PasteBefore),
        ('i', Command::EnterViInsert),
        ('a', Command::EnterViAppend),
        ('u', Command::Undo),
        ('c', Command::Change),
        ('x', Command::DeleteChar),
        ('s', Command::SubstituteCharWithInsert),
        ('?', Command::HistorySearch),
        ('C', Command::ChangeToLineEnd),
        ('D', Command::DeleteToEnd),
        ('I', Command::PrependToStart),
        ('A', Command::AppendToEnd),
        ('S', Command::RewriteCurrentLine),
        ('~', Command::Switchcase),
        ('.', Command::RepeatLastAction),
    ];
    for (key, command) in table {
        assert_eq!(parse(&[key]), (Some(command), 1));
        assert_eq!(parse(&[key, 'w', 'x']), (Some(command), 1));
    }
}

#[test]
fn unrecognized_leading_key_matches_nothing_and_takes_nothing() {
    for key in ['w', 'e', 'b', 'h', 'j', 'k', 'l', '0', '$', '1', '9', 'R', 'z', ' ', 'é'] {
        assert_eq!(parse(&[key]), (None, 0));
        assert_eq!(parse(&[key, 'd']), (None, 0));
    }
}

#[test]
fn empty_input_matches_nothing() {
    assert_eq!(parse(&[]), (None, 0));
}

#[test]
fn replace_without_operand_is_incomplete() {
    assert_eq!(parse(&['r']), (Some(Command::Incomplete), 1));
}

#[test]
fn replace_takes_its_operand() {
    assert_eq!(parse(&['r', 'x']), (Some(Command::ReplaceChar('x')), 2));
    assert_eq!(parse(&['r', 'r']), (Some(Command::ReplaceChar('r')), 2));
    assert_eq!(parse(&['r', 'd', 'w']), (Some(Command::ReplaceChar('d')), 2));
}

#[test]
fn parsing_continues_where_the_last_command_ended() {
    let keys = ['r', 'x', 'd', 'w'];
    let mut input = KeyCursor::new(&keys);
    assert_eq!(parse_command(&mut input), Some(Command::ReplaceChar('x')));
    assert_eq!(input.consumed(), 2);
    assert_eq!(parse_command(&mut input), Some(Command::Delete));
    assert_eq!(input.consumed(), 3);
    assert_eq!(parse_command(&mut input), None);
    assert_eq!(input.consumed(), 3);
    assert_eq!(input.peek(), Some('w'));
}

#[test]
fn reparsing_the_buffer_from_its_start_gives_the_same_command() {
    let keys = ['c', 'w'];
    assert_eq!(parse(&keys), parse(&keys));
    assert_eq!(parse(&['r']), (Some(Command::Incomplete), 1));
    assert_eq!(parse(&['r', 'q']), (Some(Command::ReplaceChar('q')), 2));
}

#[test]
fn cursor_peeks_without_taking() {
    let keys = ['a', 'b'];
    let mut input = KeyCursor::new(&keys);
    assert_eq!(input.consumed(), 0);
    assert_eq!(input.peek(), Some('a'));
    assert_eq!(input.peek(), Some('a'));
    assert_eq!(input.consumed(), 0);
    assert_eq!(input.next(), Some('a'));
    assert_eq!(input.consumed(), 1);
    assert_eq!(input.peek(), Some('b'));
    assert_eq!(input.next(), Some('b'));
    assert_eq!(input.consumed(), 2);
}

#[test]
fn cursor_at_the_end_gives_nothing_and_stays() {
    let keys = ['a'];
    let mut input = KeyCursor::new(&keys);
    assert_eq!(input.next(), Some('a'));
    assert_eq!(input.peek(), None);
    assert_eq!(input.next(), None);
    assert_eq!(input.next(), None);
    assert_eq!(input.consumed(), 1);
}
