use crate::text::utf8_len;
use arboard::Clipboard as Arboard;
use vstd::prelude::*;

verus! {

/// How the content of the clipboard is to be inserted.
#[derive(Clone, Copy, Debug, PartialEq, Eq, Structural)]
pub enum ClipboardMode {
    /// As direct content at the cursor.
    Normal,
    /// As new lines below or above.
    Lines,
}

impl Default for ClipboardMode {
    fn default() -> (mode: Self)
        ensures
            mode == ClipboardMode::Normal,
    {
        ClipboardMode::Normal
    }
}

/// The mode in which `content` is pasted by a clipboard that last stored
/// `stored`: the stored mode where the content is still the stored one, and
/// direct insertion where it has changed since.
pub open spec fn paste_mode(content: Seq<char>, stored: (Seq<char>, ClipboardMode))
    -> ClipboardMode {
    if content == stored.0 {
        stored.1
    } else {
        ClipboardMode::Normal
    }
}

/// A clipboard for cut and paste.
///
/// The methods take `&mut self` because a system clipboard needs exclusive
/// access even to read.
pub trait Clipboard: Send {
    /// The content and mode that were last stored through this clipboard.
    spec fn stored(&self) -> (Seq<char>, ClipboardMode);

    /// Whether reading always gives back what was last stored, which holds of
    /// a clipboard that nothing else can write to.
    spec fn is_private(&self) -> bool;

    /// Stores `content` with its mode.
    fn set(&mut self, content: &str, mode: ClipboardMode)
        ensures
            final(self).stored() == (content@, mode),
            final(self).is_private() == old(self).is_private(),
    ;

    /// Reads the content and the mode in which to insert it.
    fn get(&mut self) -> (pasted: (String, ClipboardMode))
        ensures
            final(self).stored() == old(self).stored(),
            final(self).is_private() == old(self).is_private(),
            old(self).is_private() ==> pasted.0@ == old(self).stored().0,
            pasted.1 == paste_mode(pasted.0@, old(self).stored()),
    ;

    /// Stores the empty content.
    fn clear(&mut self)
        ensures
            final(self).stored() == (Seq::<char>::empty(), ClipboardMode::Normal),
            final(self).is_private() == old(self).is_private(),
    {
        proof {
            reveal_strlit("");
        }
        self.set("", ClipboardMode::Normal);
    }

    /// The length in bytes of the content that a read gives.
    fn len(&mut self) -> (bytes: usize)
        ensures
            final(self).stored() == old(self).stored(),
            final(self).is_private() == old(self).is_private(),
            old(self).is_private() ==> bytes == utf8_len(old(self).stored().0),
    {
        let pasted = self.get();
        pasted.0.as_str().len()
    }
}

/// A clipboard that lives inside the application.
pub struct LocalClipboard {
    content: String,
    mode: ClipboardMode,
}

impl Default for LocalClipboard {
    fn default() -> (clipboard: Self)
        ensures
            clipboard.stored() == (Seq::<char>::empty(), ClipboardMode::Normal),
    {
        LocalClipboard { content: String::new(), mode: ClipboardMode::Normal }
    }
}

impl LocalClipboard {
    /// An empty clipboard in normal mode.
    pub fn new() -> (clipboard: Self)
        ensures
            clipboard.stored() == (Seq::<char>::empty(), ClipboardMode::Normal),
    {
        Self::default()
    }
}

impl Clipboard for LocalClipboard {
    closed spec fn stored(&self) -> (Seq<char>, ClipboardMode) {
        (self.content@, self.mode)
    }

    open spec fn is_private(&self) -> bool {
        true
    }

    fn set(&mut self, content: &str, mode: ClipboardMode) {
        self.content = content.to_owned();
        self.mode = mode;
    }

    fn get(&mut self) -> (pasted: (String, ClipboardMode))
        ensures
            *final(self) == *old(self),
    {
        (self.content.clone(), self.mode)
    }
}

#[verifier::external_type_specification]
#[verifier::external_body]
pub struct ExArboard(Arboard);

#[verifier::external_type_specification]
#[verifier::external_body]
pub struct ExArboardError(arboard::Error);

/// Why the system clipboard could not be reached.
#[derive(Debug, PartialEq, Eq)]
pub enum ClipboardError {
    /// The clipboard is empty or holds something else than text.
    ContentNotAvailable,
    /// The system offers no clipboard of the kind asked for.
    ClipboardNotSupported,
    /// Another party holds the clipboard.
    ClipboardOccupied,
    /// The content could not be converted.
    ConversionFailure,
    /// Any other failure, with a description for the developer.
    Unknown { description: String },
}

/// Opens the system clipboard with `arboard::Clipboard::new`.
///
/// Whether this succeeds depends on the system it runs on, so nothing is
/// claimed of the result.
#[verifier::external_body]
fn open_system() -> (opened: Result<Arboard, arboard::Error>) {
    Arboard::new()
}

/// Puts `text` on the system clipboard with `arboard::Clipboard::set_text`.
///
/// The outcome depends on the system, so nothing is claimed of it.
#[verifier::external_body]
fn system_set_text(cb: &mut Arboard, text: &str) -> (done: Result<(), arboard::Error>) {
    cb.set_text(text)
}

/// Reads the text on the system clipboard with `arboard::Clipboard::get_text`.
///
/// Any program may have written there, so nothing is claimed of the text.
#[verifier::external_body]
fn system_get_text(cb: &mut Arboard) -> (text: Result<String, arboard::Error>) {
    cb.get_text()
}

/// Names the kind of an `arboard::Error` in this library's own type, moving the
/// description of an unknown error along. A kind that `arboard` adds later
/// counts as unknown and is described by the error's own message.
#[verifier::external_body]
fn error_kind(error: arboard::Error) -> (kind: ClipboardError) {
    match error {
        arboard::Error::ContentNotAvailable => ClipboardError::ContentNotAvailable,
        arboard::Error::ClipboardNotSupported => ClipboardError::ClipboardNotSupported,
        arboard::Error::ClipboardOccupied => ClipboardError::ClipboardOccupied,
        arboard::Error::ConversionFailure => ClipboardError::ConversionFailure,
        arboard::Error::Unknown { description } => ClipboardError::Unknown { description },
        other => ClipboardError::Unknown { description: other.to_string() },
    }
}

/// A clipboard that is shared with the other programs of the system.
pub struct SystemClipboard {
    cb: Arboard,
    local_copy: String,
    mode: ClipboardMode,
}

impl SystemClipboard {
    /// Opens the system clipboard, or says why it cannot be reached.
    ///
    /// Whether it can be reached depends on the system; a clipboard that was
    /// opened has stored nothing yet.
    pub fn new() -> (opened: Result<Self, ClipboardError>)
        ensures
            opened matches Ok(clipboard) ==> clipboard.stored() == (
                Seq::<char>::empty(),
                ClipboardMode::Normal,
            ),
    {
        Self::from_opened(open_system())
    }

    /// Takes over the outcome of opening the system clipboard: a clipboard that
    /// has stored nothing yet where it was opened, else the kind of the failure.
    pub fn from_opened(opened: Result<Arboard, arboard::Error>) -> (taken: Result<
        Self,
        ClipboardError,
    >)
        ensures
            taken is Ok <==> opened is Ok,
            taken matches Ok(clipboard) ==> clipboard.stored() == (
                Seq::<char>::empty(),
                ClipboardMode::Normal,
            ),
    {
        match opened {
            Ok(cb) => Ok(
                SystemClipboard { cb, local_copy: String::new(), mode: ClipboardMode::Normal },
            ),
            Err(error) => Err(error_kind(error)),
        }
    }

    /// Pairs the text that the system clipboard gave, if any, with the mode in
    /// which to insert it.
    ///
    /// No text counts as empty text. Text that is still the `local_copy` was
    /// cut inside this editor and keeps the `mode` of that cut; any other text
    /// came from elsewhere and is inserted directly.
    pub fn with_mode(
        system_text: Option<String>,
        local_copy: &String,
        mode: ClipboardMode,
    ) -> (pasted: (String, ClipboardMode))
        ensures
            system_text matches Some(text) ==> pasted.0@ == text@,
            system_text is None ==> pasted.0@ == Seq::<char>::empty(),
            pasted.1 == paste_mode(pasted.0@, (local_copy@, mode)),
    {
        let system_content = match system_text {
            Some(text) => text,
            None => String::new(),
        };
        if system_content == *local_copy {
            (system_content, mode)
        } else {
            (system_content, ClipboardMode::Normal)
        }
    }
}

impl Clipboard for SystemClipboard {
    closed spec fn stored(&self) -> (Seq<char>, ClipboardMode) {
        (self.local_copy@, self.mode)
    }

    open spec fn is_private(&self) -> bool {
        false
    }

    fn set(&mut self, content: &str, mode: ClipboardMode) {
        self.local_copy = content.to_owned();
        let _ = system_set_text(&mut self.cb, content);
        self.mode = mode;
    }

    fn get(&mut self) -> (pasted: (String, ClipboardMode)) {
        let system_text = match system_get_text(&mut self.cb) {
            Ok(text) => Some(text),
            Err(_) => None,
        };
        Self::with_mode(system_text, &self.local_copy, self.mode)
    }
}

/// The system clipboard where it can be reached, else a [`LocalClipboard`].
///
/// Which of the two it is depends on the system. Either way the clipboard has
/// stored nothing yet.
pub fn get_default_clipboard() -> (clipboard: Box<dyn Clipboard>)
    ensures
        clipboard.stored() == (Seq::<char>::empty(), ClipboardMode::Normal),
{
    // Each arm returns the clipboard it has boxed, so that what is known of
    // the clipboard is known of the box.
    match SystemClipboard::new() {
        Ok(cb) => {
            return Box::new(cb);
        },
        Err(_) => {
            return Box::new(LocalClipboard::new());
        },
    };
}

} // verus!
