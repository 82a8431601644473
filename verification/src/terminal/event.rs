//! Key presses as the dashboard reads them.
//!
//! A front end converts what its terminal layer reports into these plain values.
use vstd::prelude::*;

verus! {

/// The key that was pressed. Keys the dashboard gives no meaning to are `Other`.
#[derive(Clone, Copy, Debug, PartialEq, Eq, Structural)]
pub enum KeyCode {
    Char(char),
    Enter,
    Backspace,
    Left,
    Right,
    Up,
    Down,
    PageUp,
    PageDown,
    Esc,
    Other,
}

/// Whether the key went down, is held, or came up.
#[derive(Clone, Copy, Debug, PartialEq, Eq, Structural)]
pub enum KeyEventKind {
    Press,
    Repeat,
    Release,
}

/// The modifier keys held with a key, one bit each.
#[derive(Clone, Copy, Debug, PartialEq, Eq, Structural)]
pub struct KeyModifiers {
    pub bits: u8,
}

/// Bit of the shift key in [`KeyModifiers::bits`].
pub const SHIFT: u8 = 0x01;

/// Bit of the control key in [`KeyModifiers::bits`].
pub const CONTROL: u8 = 0x02;

/// Bit of the alt key in [`KeyModifiers::bits`].
pub const ALT: u8 = 0x04;

impl KeyModifiers {
    /// No modifier held.
    pub fn none() -> (m: Self)
        ensures
            m.bits == 0,
    {
        KeyModifiers { bits: 0 }
    }

    /// The control key and no other modifier.
    pub fn control() -> (m: Self)
        ensures
            m.bits == CONTROL,
    {
        KeyModifiers { bits: CONTROL }
    }
}

/// The ways a selection or a text moves.
#[derive(Clone, Copy, Debug, PartialEq, Eq, Structural)]
pub enum Direction {
    Up,
    Down,
    PageUp,
    PageDown,
}

/// One keyboard event.
#[derive(Clone, Copy, Debug, PartialEq, Eq, Structural)]
pub struct KeyEvent {
    pub code: KeyCode,
    pub modifiers: KeyModifiers,
    pub kind: KeyEventKind,
}

/// A press of `code` with no modifier held.
pub open spec fn pressed(code: KeyCode) -> KeyEvent {
    KeyEvent { code, modifiers: KeyModifiers { bits: 0 }, kind: KeyEventKind::Press }
}

impl KeyEvent {
    /// A press of `code` with `modifiers` held.
    pub fn new(code: KeyCode, modifiers: KeyModifiers) -> (key: Self)
        ensures
            key == (KeyEvent { code, modifiers, kind: KeyEventKind::Press }),
    {
        KeyEvent { code, modifiers, kind: KeyEventKind::Press }
    }

    /// A press of `code` with no modifier held.
    pub fn press(code: KeyCode) -> (key: Self)
        ensures
            key == pressed(code),
    {
        KeyEvent { code, modifiers: KeyModifiers { bits: 0 }, kind: KeyEventKind::Press }
    }

    /// True for the interrupt chord: control alone, with `c` in either case.
    pub open spec fn is_interrupt(self) -> bool {
        self.modifiers.bits == CONTROL && (self.code == KeyCode::Char('c') || self.code
            == KeyCode::Char('C'))
    }

    /// Tells whether this event is the interrupt chord.
    pub fn interrupts(&self) -> (b: bool)
        ensures
            b == self.is_interrupt(),
    {
        self.modifiers.bits == CONTROL && match self.code {
            KeyCode::Char(c) => c == 'c' || c == 'C',
            _ => false,
        }
    }

    /// True where the input listener puts the event on the event bus: presses
    /// only, neither repeats nor releases.
    pub open spec fn is_forwarded(self) -> bool {
        self.kind == KeyEventKind::Press
    }

    /// Tells whether the input listener forwards this event.
    pub fn should_forward(&self) -> (b: bool)
        ensures
            b == self.is_forwarded(),
    {
        match self.kind {
            KeyEventKind::Press => true,
            _ => false,
        }
    }
}

} // verus!
