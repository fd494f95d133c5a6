//! The command vocabulary: the closed set of actions, motions and pending
//! states that the key-event state machine speaks.

use crate::mode::Mode;
use vstd::prelude::*;

verus! {

/// A pure motion descriptor: resolving one yields a new cursor offset and
/// never mutates text.
#[derive(Clone, Copy, Debug, PartialEq, Eq, Structural)]
pub enum GoToAction {
    /// Beginning of line (column 0), reached with `0`.
    BeginningOfLine,
    /// Move to the beginning of the previous WORD.
    BeginningOfWORD,
    /// Move to the beginning of the previous word.
    BeginningOfWord,
    /// End of line, like with `$` and `A`.
    EndOfLine,
    /// Move to the end of the previous WORD, reached with `gE`.
    EndOfPreviousWORD,
    /// Move to the end of the previous word, reached with `ge`.
    EndOfPreviousWord,
    /// End of current or next WORD, reached with `E`.
    EndWORD,
    /// End of current or next word, reached with `e`.
    EndWord,
    /// First non space character, like with `I` and `^`.
    FirstNonSpace,
    /// Move the cursor left by one character.
    Left,
    /// Find next occurrence of char and place cursor on it.
    NextOccurrenceOf(char),
    /// Move to the beginning of the next WORD.
    NextWORD,
    /// Move to the beginning of the next word.
    NextWord,
    /// Find previous occurrence of char and place cursor on it.
    PreviousOccurrenceOf(char),
    /// Move the cursor right by one character.
    Right,
}

/// An action on the buffer: a mutation or a mode change.
#[derive(Clone, Copy, Debug, PartialEq, Eq, Structural)]
pub enum Action {
    /// Delete from the cursor to the first motion's target; the optional
    /// second motion adjusts the endpoint before deleting.
    Delete(GoToAction, Option<GoToAction>),
    /// Deletes the whole line.
    DeleteLine,
    /// Deletes the char after the cursor.
    DeleteNextChar,
    /// Deletes the char before the cursor.
    DeletePreviousChar,
    /// Moves the cursor to the location the motion describes.
    GoTo(GoToAction),
    /// Inserts a char in the buffer.
    InsertChar(char),
    /// Undoes the last undo action.
    Redo,
    /// Replaces the char under the cursor.
    ReplaceWith(char),
    /// Switches to a new mode.
    SelectMode(Mode),
    /// Capitalises minuscules and lowers capitals.
    ToggleCapitalisation,
    /// Undoes the last edition.
    Undo,
}

/// Pending state for character-search motions awaiting their target char.
#[derive(Clone, Copy, Debug, PartialEq, Eq, Structural)]
pub enum CombinablePending {
    /// Find next char that is equal to the awaited char.
    FindNext,
    /// Find next char that is equal to the awaited char, then step left.
    FindNextDecrement,
    /// Find previous char that is equal to the awaited char.
    FindPrevious,
    /// Find previous char that is equal to the awaited char, then step right.
    FindPreviousIncrement,
}

/// An operator or prefix waiting for another keypress.
#[derive(Clone, Copy, Debug, PartialEq, Eq, Structural)]
pub enum OPending {
    /// Change pending (`c` pressed, waiting for a motion).
    Change,
    /// Change pending with a find-motion pending too (e.g. `cf` pressed).
    ChangeAction(CombinablePending),
    /// A find-motion waiting for its single character.
    CombinablePending(CombinablePending),
    /// Delete pending (`d` pressed, waiting for a motion).
    Delete,
    /// Delete pending with a find-motion pending too (e.g. `df` pressed).
    DeleteAction(CombinablePending),
    /// A `g`-prefixed command waiting for its second key.
    GoTo,
    /// Replace one character.
    ReplaceOne,
}

} // verus!
