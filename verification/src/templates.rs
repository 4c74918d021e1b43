//! The small functions that page templates apply to what they show.

use vstd::prelude::*;
use vstd::string::{StrSliceExecFns, StringExecFns};
use crate::storage::option_string_view;

verus! {

/// An asset that a template names is not among the packed assets.
#[derive(Debug, PartialEq, Eq)]
pub struct AssetNotFoundError {
    pub asset_name: String,
}

/// The path of an asset that a template names cannot be shown as text.
#[derive(Debug, PartialEq, Eq)]
pub struct InvalidPathError {
    pub asset_name: String,
}

impl AssetNotFoundError {
    /// The sentence that describes the error.
    pub fn message(&self) -> (text: String)
        ensures
            text@ == "asset "@ + self.asset_name@ + " not found"@,
    {
        let mut text = String::from_str("asset ");
        text.append(self.asset_name.as_str());
        text.append(" not found");
        text
    }
}

impl InvalidPathError {
    /// The sentence that describes the error.
    pub fn message(&self) -> (text: String)
        ensures
            text@ == "invalid path of asset "@ + self.asset_name@,
    {
        let mut text = String::from_str("invalid path of asset ");
        text.append(self.asset_name.as_str());
        text
    }
}

/// The text to show for an optional string: the string, or
/// `default_string` where there is none.
pub fn unwrap_or_string(string_option: &Option<String>, default_string: &str) -> (text: String)
    ensures
        text@ == match option_string_view(*string_option) {
            Some(given) => given,
            None => default_string@,
        },
{
    match string_option {
        Some(given) => given.clone(),
        None => String::from_str(default_string),
    }
}

/// The index of the last dot among the first `upto` characters of `text`.
pub open spec fn last_dot(text: Seq<char>, upto: int) -> Option<int>
    decreases upto,
{
    if upto <= 0 {
        None
    } else if text[upto - 1] == '.' {
        Some(upto - 1)
    } else {
        last_dot(text, upto - 1)
    }
}

/// `text` without its last dot and what follows it; all of `text` where
/// it holds no dot.
pub open spec fn without_suffix(text: Seq<char>) -> Seq<char> {
    match last_dot(text, text.len() as int) {
        Some(position) => text.subrange(0, position),
        None => text,
    }
}

/// The last dot lies within the text, and no dot follows it.
pub proof fn lemma_last_dot(text: Seq<char>, upto: int)
    requires
        0 <= upto <= text.len(),
    ensures
        match last_dot(text, upto) {
            Some(position) => {
                &&& 0 <= position < upto
                &&& text[position] == '.'
                &&& forall|i: int| position < i < upto ==> text[i] != '.'
            },
            None => forall|i: int| 0 <= i < upto ==> text[i] != '.',
        },
    decreases upto,
{
    if upto > 0 && text[upto - 1] != '.' {
        lemma_last_dot(text, upto - 1);
    }
}

/// The name of a file without its extension: `input` up to its last dot.
pub fn strip_suffix(input: &str) -> (stem: String)
    ensures
        stem@ == without_suffix(input@),
{
    let length: usize = input.unicode_len();
    let mut position: usize = length;
    while position > 0 && input.get_char(position - 1) != '.'
        invariant
            position <= length,
            length == input@.len(),
            last_dot(input@, length as int) == last_dot(input@, position as int),
        decreases position,
    {
        position = position - 1;
    }
    if position > 0 {
        String::from_str(input.substring_char(0, position - 1))
    } else {
        String::from_str(input)
    }
}

} // verus!
