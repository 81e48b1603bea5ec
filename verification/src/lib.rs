//! The normal-mode command interpreter of a Vi-style line editor, with the
//! clipboard and the history suggestions that the editor works with.
//!
//! Keystrokes are parsed into a [`Command`], which is resolved, alone or
//! together with a [`Motion`], into the list of buffer edits and UI events that
//! the editor loop carries out. The contracts are stated over mathematical
//! models of the values involved, and Verus proves the bodies against them.
//! Only the calls into the system clipboard are taken on trust: what they give
//! depends on the system, and nothing is claimed of it.

pub mod completion;
pub mod core_editor;
pub mod edit_mode;
pub mod enums;
pub mod text;

pub use completion::history::{create_suggestion, create_suggestions, Span, Suggestion};
pub use core_editor::clip_buffer::{
    get_default_clipboard, Clipboard, ClipboardError, ClipboardMode, LocalClipboard,
    SystemClipboard,
};
pub use edit_mode::vi::command::{parse_command, Command};
pub use edit_mode::vi::motion::{Motion, ViCharSearch};
pub use edit_mode::vi::parser::{KeyCursor, ReedlineOption};
pub use edit_mode::vi::Vi;
pub use enums::{EditCommand, ReedlineEvent};
