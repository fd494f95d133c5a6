//! The character classifier: every word/WORD motion delimits its runs by
//! these classes.

use vstd::prelude::*;

verus! {

/// Classification of a character for word-motion purposes.
#[derive(Clone, Copy, Debug, PartialEq, Eq, Structural)]
pub enum CharClass {
    /// Alphanumeric or underscore.
    Word,
    /// Neither word nor whitespace.
    Punctuation,
    /// Space, tab or newline.
    Whitespace,
}

/// True exactly for the characters that count as word characters:
/// ASCII letters, ASCII digits and the underscore.
pub open spec fn is_word_char(c: char) -> bool {
    ||| 'a' <= c && c <= 'z'
    ||| 'A' <= c && c <= 'Z'
    ||| '0' <= c && c <= '9'
    ||| c == '_'
}

/// True exactly for the characters that count as whitespace:
/// space, tab and newline.
pub open spec fn is_space_char(c: char) -> bool {
    c == ' ' || c == '\t' || c == '\n'
}

/// The class of a character: word characters and whitespace as above,
/// everything else punctuation.
pub open spec fn class_of(c: char) -> CharClass {
    if is_word_char(c) {
        CharClass::Word
    } else if is_space_char(c) {
        CharClass::Whitespace
    } else {
        CharClass::Punctuation
    }
}

/// Classifies a character as word, punctuation or whitespace.
pub fn classify(c: char) -> (r: CharClass)
    ensures
        r == class_of(c),
{
    if ('a' <= c && c <= 'z') || ('A' <= c && c <= 'Z') || ('0' <= c && c <= '9') || c == '_' {
        CharClass::Word
    } else if c == ' ' || c == '\t' || c == '\n' {
        CharClass::Whitespace
    } else {
        CharClass::Punctuation
    }
}

/// The class a motion of the given granularity sees: fine-grained motions
/// (`w`, `b`, `e`, `ge`) distinguish all three classes; coarse WORD motions
/// (`W`, `B`, `E`, `gE`) treat word and punctuation characters as one class.
pub open spec fn run_class(c: char, coarse: bool) -> CharClass {
    if coarse {
        if is_space_char(c) {
            CharClass::Whitespace
        } else {
            CharClass::Word
        }
    } else {
        class_of(c)
    }
}

/// Classifies a character at the given granularity.
pub fn classify_run(c: char, coarse: bool) -> (r: CharClass)
    ensures
        r == run_class(c, coarse),
{
    if coarse {
        if c == ' ' || c == '\t' || c == '\n' {
            CharClass::Whitespace
        } else {
            CharClass::Word
        }
    } else {
        classify(c)
    }
}

} // verus!
