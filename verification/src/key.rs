//! Key events delivered by the backend.

use vstd::prelude::*;

verus! {

/// Modifier state attached to a key event. Only unmodified keys trigger
/// navigation and selection; modified variants fall through to text editing.
#[derive(Clone, Copy, PartialEq, Eq, Structural, Debug)]
pub enum KeyModifiers {
    /// No modifier held.
    Plain,
    /// Shift held.
    Shift,
    /// Control held.
    Control,
    /// Alt held.
    Alt,
}

/// One decoded key event from the backend's key source.
#[derive(Clone, Copy, PartialEq, Eq, Structural, Debug)]
pub enum Key {
    /// Directional up.
    Up(KeyModifiers),
    /// Directional down.
    Down(KeyModifiers),
    /// Directional left.
    Left(KeyModifiers),
    /// Directional right.
    Right(KeyModifiers),
    /// A printable character.
    Char(char, KeyModifiers),
    /// Erase the character before the editing cursor.
    Backspace,
    /// Erase the character at the editing cursor.
    Delete,
    /// Confirm the current selection.
    Submit,
    /// Abort the prompt.
    Cancel,
}

} // verus!
