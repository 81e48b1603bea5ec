use reedline::{
    get_default_clipboard, Clipboard, ClipboardError, ClipboardMode, LocalClipboard,
    SystemClipboard,
};

#[test]
fn reads_back() {
    let mut cb = get_default_clipboard();
    // If the system clipboard is used we want to persist it for the user
    let previous_state = cb.get().0;

    // Actual test
    cb.set("test", ClipboardMode::Normal);
    assert_eq!(cb.len(), 4);
    assert_eq!(cb.get().0, "test".to_owned());
    cb.clear();
    assert_eq!(cb.get().0, String::new());

    // Restore!

    cb.set(&previous_state, ClipboardMode::Normal);
}

#[test]
fn local_clipboard_starts_empty_in_normal_mode() {
    let mut cb = LocalClipboard::new();
    assert_eq!(cb.get(), (String::new(), ClipboardMode::Normal));
    assert_eq!(cb.len(), 0);
}

#[test]
fn local_clipboard_keeps_content_and_mode() {
    let mut cb = LocalClipboard::new();
    cb.set("two\nlines", ClipboardMode::Lines);
    assert_eq!(cb.get(), ("two\nlines".to_owned(), ClipboardMode::Lines));
    assert_eq!(cb.get(), ("two\nlines".to_owned(), ClipboardMode::Lines));
    cb.set("word", ClipboardMode::Normal);
    assert_eq!(cb.get(), ("word".to_owned(), ClipboardMode::Normal));
}

#[test]
fn clear_stores_empty_content_in_normal_mode() {
    let mut cb = LocalClipboard::new();
    cb.set("line", ClipboardMode::Lines);
    cb.clear();
    assert_eq!(cb.get(), (String::new(), ClipboardMode::Normal));
}

#[test]
fn len_counts_bytes_not_characters() {
    let mut cb = LocalClipboard::new();
    cb.set("äb", ClipboardMode::Normal);
    assert_eq!(cb.len(), 3);
}

#[test]
fn default_mode_is_normal() {
    assert_eq!(ClipboardMode::default(), ClipboardMode::Normal);
}

#[test]
fn system_text_that_is_the_local_copy_keeps_its_mode() {
    let local = "yanked".to_owned();
    let pasted = SystemClipboard::with_mode(Some("yanked".to_owned()), &local, ClipboardMode::Lines);
    assert_eq!(pasted, ("yanked".to_owned(), ClipboardMode::Lines));
}

#[test]
fn system_text_from_elsewhere_is_inserted_directly() {
    let local = "yanked".to_owned();
    let pasted = SystemClipboard::with_mode(Some("foreign".to_owned()), &local, ClipboardMode::Lines);
    assert_eq!(pasted, ("foreign".to_owned(), ClipboardMode::Normal));
}

#[test]
fn missing_system_text_counts_as_empty() {
    let local = "yanked".to_owned();
    let pasted = SystemClipboard::with_mode(None, &local, ClipboardMode::Lines);
    assert_eq!(pasted, (String::new(), ClipboardMode::Normal));
    let nothing = String::new();
    let pasted = SystemClipboard::with_mode(None, &nothing, ClipboardMode::Lines);
    assert_eq!(pasted, (String::new(), ClipboardMode::Lines));
}

#[test]
fn failure_to_open_the_system_clipboard_keeps_its_kind() {
    let table = [
        (arboard::Error::ContentNotAvailable, ClipboardError::ContentNotAvailable),
        (arboard::Error::ClipboardNotSupported, ClipboardError::ClipboardNotSupported),
        (arboard::Error::ClipboardOccupied, ClipboardError::ClipboardOccupied),
        (arboard::Error::ConversionFailure, ClipboardError::ConversionFailure),
        (
            arboard::Error::Unknown { description: "no display".to_owned() },
            ClipboardError::Unknown { description: "no display".to_owned() },
        ),
    ];
    for (error, kind) in table {
        match SystemClipboard::from_opened(Err(error)) {
            Ok(_) => panic!("a failure gave a clipboard"),
            Err(found) => assert_eq!(found, kind),
        }
    }
}
