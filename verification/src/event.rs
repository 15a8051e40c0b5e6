//! What the terminal reports, as far as the reader tells it apart.

use vstd::prelude::*;

verus! {

/// A key.
#[derive(Debug, Clone, Copy, PartialEq, Eq, Structural)]
pub enum KeyCode {
    Enter,
    Esc,
    Tab,
    Backspace,
    Left,
    Right,
    Up,
    Down,
    /// A character
    Char(char),
    /// Any other key
    Other,
}

/// The modifiers held down with a key.
#[derive(Debug, Clone, Copy, PartialEq, Eq, Structural)]
pub enum KeyModifiers {
    /// No modifier
    Plain,
    /// Shift and nothing else
    Shift,
    /// Control and nothing else
    Control,
    /// Any other combination
    Other,
}

/// A pressed key.
#[derive(Debug, Clone, Copy, PartialEq, Eq, Structural)]
pub struct KeyEvent {
    pub code: KeyCode,
    pub modifiers: KeyModifiers,
}

/// Something that happened at the terminal.
#[derive(Debug, Clone, PartialEq, Eq)]
pub enum Event {
    /// A key was pressed
    Key(KeyEvent),
    /// A text was pasted
    Paste(String),
    /// The window has this width and height now
    Resize(u16, u16),
    /// Anything else
    Other,
}

/// Whether the event is this key with these modifiers.
pub open spec fn is_key(event: Event, code: KeyCode, modifiers: KeyModifiers) -> bool {
    event == Event::Key(KeyEvent { code, modifiers })
}

/// Whether the event is this key, whatever modifiers are held.
pub open spec fn is_key_code(event: Event, code: KeyCode) -> bool {
    event matches Event::Key(key) && key.code == code
}

/// Whether the event submits a line: Enter, or control and `j`.
pub open spec fn is_submit(event: Event) -> bool {
    ||| is_key(event, KeyCode::Enter, KeyModifiers::Plain)
    ||| is_key(event, KeyCode::Char('j'), KeyModifiers::Control)
}

/// Whether the event ends the input: control and `d`.
pub open spec fn is_end(event: Event) -> bool {
    is_key(event, KeyCode::Char('d'), KeyModifiers::Control)
}

} // verus!
