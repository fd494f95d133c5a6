//! The key events the editing core consumes: a key code plus a modifier set.
//! The host translates whatever its terminal library delivers into these
//! plain values before feeding them to the core.

use vstd::prelude::*;

verus! {

/// The key codes the core reacts to. Anything else a host may receive maps
/// to [`KeyCode::Other`], which every key table ignores.
#[derive(Clone, Copy, Debug, PartialEq, Eq, Structural)]
pub enum KeyCode {
    /// A character-producing key.
    Char(char),
    /// The left arrow key.
    Left,
    /// The right arrow key.
    Right,
    /// The backspace key.
    Backspace,
    /// The escape key.
    Esc,
    /// Any key the core does not react to.
    Other,
}

/// The modifier combination reported with a key press.
#[derive(Clone, Copy, Debug, PartialEq, Eq, Structural)]
pub enum KeyModifiers {
    /// No modifier held.
    Plain,
    /// Only control held.
    Control,
    /// Only shift held.
    Shift,
    /// Any other combination; every key table ignores it.
    Other,
}

/// One key press: code plus modifiers.
#[derive(Clone, Copy, Debug, PartialEq, Eq, Structural)]
pub struct KeyEvent {
    /// Which key was pressed.
    pub code: KeyCode,
    /// Which modifiers were held.
    pub modifiers: KeyModifiers,
}

impl KeyEvent {
    /// A key press with no modifiers held.
    pub fn plain(code: KeyCode) -> (e: KeyEvent)
        ensures
            e == (KeyEvent { code, modifiers: KeyModifiers::Plain }),
    {
        KeyEvent { code, modifiers: KeyModifiers::Plain }
    }

    /// A key press with the given modifiers.
    pub fn with_modifiers(code: KeyCode, modifiers: KeyModifiers) -> (e: KeyEvent)
        ensures
            e == (KeyEvent { code, modifiers }),
    {
        KeyEvent { code, modifiers }
    }
}

/// True for an ASCII capital letter.
pub open spec fn is_ascii_upper(c: char) -> bool {
    'A' <= c && c <= 'Z'
}

/// True for an ASCII small letter.
pub open spec fn is_ascii_lower(c: char) -> bool {
    'a' <= c && c <= 'z'
}

/// An ASCII small letter capitalised; any other character unchanged.
pub open spec fn upper_of(c: char) -> char {
    if is_ascii_lower(c) {
        (((c as u32) - 32) as u8) as char
    } else {
        c
    }
}

/// Capitalises an ASCII small letter; returns any other character unchanged.
pub fn to_ascii_upper(c: char) -> (r: char)
    ensures
        r == upper_of(c),
{
    if 'a' <= c && c <= 'z' {
        (((c as u32) - 32) as u8) as char
    } else {
        c
    }
}

/// An ASCII capital letter lowered; any other character unchanged.
pub open spec fn lower_of(c: char) -> char {
    if is_ascii_upper(c) {
        (((c as u32) + 32) as u8) as char
    } else {
        c
    }
}

/// Lowers an ASCII capital letter; returns any other character unchanged.
pub fn to_ascii_lower(c: char) -> (r: char)
    ensures
        r == lower_of(c),
{
    if 'A' <= c && c <= 'Z' {
        (((c as u32) + 32) as u8) as char
    } else {
        c
    }
}

/// A character with its case flipped: capitals lowered, small letters
/// capitalised, everything else unchanged.
pub open spec fn toggled(c: char) -> char {
    if is_ascii_lower(c) {
        upper_of(c)
    } else if is_ascii_upper(c) {
        lower_of(c)
    } else {
        c
    }
}

/// Flips the case of a character, when it has one.
pub fn toggle_case(c: char) -> (r: char)
    ensures
        r == toggled(c),
{
    if 'a' <= c && c <= 'z' {
        to_ascii_upper(c)
    } else if 'A' <= c && c <= 'Z' {
        to_ascii_lower(c)
    } else {
        c
    }
}

/// The shift normalisation applied to every incoming key press: a capital
/// letter implies shift even if the terminal did not report it, and shift
/// without a capital letter capitalises the character.
pub open spec fn shift_fixed(e: KeyEvent) -> KeyEvent {
    match e.code {
        KeyCode::Char(c) => if is_ascii_upper(c) {
            match e.modifiers {
                KeyModifiers::Plain => KeyEvent { code: e.code, modifiers: KeyModifiers::Shift },
                KeyModifiers::Shift => e,
                KeyModifiers::Control => KeyEvent { code: e.code, modifiers: KeyModifiers::Other },
                KeyModifiers::Other => e,
            }
        } else if e.modifiers == KeyModifiers::Shift {
            KeyEvent { code: KeyCode::Char(upper_of(c)), modifiers: KeyModifiers::Shift }
        } else {
            e
        },
        _ => e,
    }
}

/// Adds shift if the event is a capital char, and capitalises the char if
/// the modifiers contain shift.
pub fn fix_shift_modifier(key_event: &mut KeyEvent)
    ensures
        *final(key_event) == shift_fixed(*old(key_event)),
{
    if let KeyCode::Char(c) = key_event.code {
        if 'A' <= c && c <= 'Z' {
            key_event.modifiers = match key_event.modifiers {
                KeyModifiers::Plain => KeyModifiers::Shift,
                KeyModifiers::Shift => KeyModifiers::Shift,
                KeyModifiers::Control => KeyModifiers::Other,
                KeyModifiers::Other => KeyModifiers::Other,
            };
        } else if key_event.modifiers == KeyModifiers::Shift {
            key_event.code = KeyCode::Char(to_ascii_upper(c));
        }
    }
}

} // verus!
