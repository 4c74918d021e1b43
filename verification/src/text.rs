//! Small helpers on text: comparing strings and telling which characters
//! they are made of.

use vstd::prelude::*;
use vstd::string::StringExecFns;

verus! {

/// Whether two strings hold the same characters.
pub fn same_text(left: &str, right: &str) -> (same: bool)
    ensures
        same == (left@ == right@),
{
    String::from_str(left) == String::from_str(right)
}

/// The sets of characters that the rules speak of.
#[derive(Clone, Copy, Debug, PartialEq, Eq, Structural, Hash)]
pub enum CharClass {
    /// ASCII letters, ASCII digits and the underscore.
    Word,
    /// What a password may hold: the characters of a word, and `-`, `/`,
    /// `!`, `+` and `=`.
    Password,
    /// The lower-case ASCII letters.
    LowerLetter,
    /// The ASCII digits.
    Digit,
}

/// Whether `c` belongs to `class`.
pub open spec fn in_class(class: CharClass, c: char) -> bool {
    let lower = 'a' <= c && c <= 'z';
    let upper = 'A' <= c && c <= 'Z';
    let digit = '0' <= c && c <= '9';
    match class {
        CharClass::Word => lower || upper || digit || c == '_',
        CharClass::Password => lower || upper || digit || c == '_' || c == '-' || c == '/' || c
            == '!' || c == '+' || c == '=',
        CharClass::LowerLetter => lower,
        CharClass::Digit => digit,
    }
}

/// Whether `text` has one character or more, all of them of `class`.
pub open spec fn made_of(text: Seq<char>, class: CharClass) -> bool {
    text.len() > 0 && forall|i: int| 0 <= i < text.len() ==> in_class(class, #[trigger] text[i])
}

/// Whether `text` has a character of `class`.
pub open spec fn holds_one_of(text: Seq<char>, class: CharClass) -> bool {
    exists|i: int| 0 <= i < text.len() && in_class(class, #[trigger] text[i])
}

fn char_in_class(class: CharClass, c: char) -> (inside: bool)
    ensures
        inside == in_class(class, c),
{
    let lower = 'a' <= c && c <= 'z';
    let upper = 'A' <= c && c <= 'Z';
    let digit = '0' <= c && c <= '9';
    match class {
        CharClass::Word => lower || upper || digit || c == '_',
        CharClass::Password => lower || upper || digit || c == '_' || c == '-' || c == '/' || c
            == '!' || c == '+' || c == '=',
        CharClass::LowerLetter => lower,
        CharClass::Digit => digit,
    }
}

/// Whether `text` has one character or more, all of them of `class`.
pub fn is_made_of(text: &str, class: CharClass) -> (all: bool)
    ensures
        all == made_of(text@, class),
{
    let mut all = true;
    let mut any = false;
    for c in it: text.chars()
        invariant
            it.seq() == text@,
            any == (it.index() > 0),
            all == forall|i: int| 0 <= i < it.index() ==> in_class(class, #[trigger] text@[i]),
    {
        if !char_in_class(class, c) {
            all = false;
        }
        any = true;
    }
    all && any
}

/// Whether `text` has a character of `class`.
pub fn has_one_of(text: &str, class: CharClass) -> (found: bool)
    ensures
        found == holds_one_of(text@, class),
{
    let mut found = false;
    for c in it: text.chars()
        invariant
            it.seq() == text@,
            found == exists|i: int| 0 <= i < it.index() && in_class(class, #[trigger] text@[i]),
    {
        if char_in_class(class, c) {
            found = true;
        }
    }
    found
}

} // verus!
