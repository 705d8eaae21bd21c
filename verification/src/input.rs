//! The input classifier: from a key code and its name to what the key asks.

use vstd::prelude::*;
use vstd::string::StrSliceExecFns;

verus! {

/// What a key press asks of the session.
#[derive(Clone, Copy, Debug, PartialEq, Eq)]
pub enum Action {
    /// Append the character to the filter string.
    InsertChar(char),
    /// Remove the last character of the filter string.
    RemoveLastChar,
    /// Select the next row, one further from the prompt.
    SelectNext,
    /// Select the previous row, one nearer to the prompt.
    SelectPrevious,
    /// Leave without a result.
    Cancel,
    /// Leave with the selected row as the result.
    ConfirmAndExit,
    /// Copy the selected row and leave.
    CopyAndExit,
    /// Nothing.
    Noop,
}

/// The code that the terminal gives for the backspace key.
pub const KEY_BACKSPACE: i32 = 263;

/// The code of the delete character.
pub const DELETE: i32 = 127;

/// The code of the escape character.
pub const ESCAPE: i32 = 27;

/// The code of the line feed that the enter key sends.
pub const ENTER: i32 = 10;

/// The code that the terminal gives for the arrow-down key.
pub const KEY_DOWN: i32 = 258;

/// The code that the terminal gives for the arrow-up key.
pub const KEY_UP: i32 = 259;

/// The name of the key that `letter` gives while control is held.
pub open spec fn control_name(letter: char) -> Seq<char> {
    seq!['^', letter]
}

/// A key is special unless its name is a single character.
pub open spec fn special_key(name: Seq<char>) -> bool {
    name.len() != 1
}

/// What a special key asks: the control sequences go by name, the other keys
/// by code, and the name decides where both apply.
pub open spec fn special_action(code: int, name: Seq<char>) -> Action {
    if name == control_name('C') {
        Action::Cancel
    } else if name == control_name('Y') {
        Action::CopyAndExit
    } else if name == control_name('J') {
        Action::SelectNext
    } else if name == control_name('K') {
        Action::SelectPrevious
    } else if name == control_name('M') {
        Action::ConfirmAndExit
    } else if code == KEY_BACKSPACE || code == DELETE {
        Action::RemoveLastChar
    } else if code == ESCAPE {
        Action::Cancel
    } else if code == ENTER {
        Action::ConfirmAndExit
    } else if code == KEY_DOWN {
        Action::SelectNext
    } else if code == KEY_UP {
        Action::SelectPrevious
    } else {
        Action::Noop
    }
}

/// What a key asks: a key whose name is one character inserts that character,
/// every other key is special.
pub open spec fn action_for(code: int, name: Seq<char>) -> Action {
    if special_key(name) {
        special_action(code, name)
    } else {
        Action::InsertChar(name[0])
    }
}

/// Whether the key named `key` is special: its name is not a single character.
pub fn is_special_key(key: &str) -> (special: bool)
    ensures
        special == special_key(key@),
{
    key.unicode_len() != 1
}

/// Whether `key` is the name of `letter` with control held.
pub fn is_control_key(key: &str, letter: char) -> (named: bool)
    ensures
        named == (key@ == control_name(letter)),
{
    if key.unicode_len() != 2 {
        return false;
    }
    let named = key.get_char(0) == '^' && key.get_char(1) == letter;
    assert(named ==> key@ =~= control_name(letter));
    named
}

/// What the special key with code `character` and name `key` asks.
pub fn handle_special_character(character: i32, key: &str) -> (action: Action)
    ensures
        action == special_action(character as int, key@),
{
    if is_control_key(key, 'C') {
        Action::Cancel
    } else if is_control_key(key, 'Y') {
        Action::CopyAndExit
    } else if is_control_key(key, 'J') {
        Action::SelectNext
    } else if is_control_key(key, 'K') {
        Action::SelectPrevious
    } else if is_control_key(key, 'M') {
        Action::ConfirmAndExit
    } else if character == KEY_BACKSPACE || character == DELETE {
        Action::RemoveLastChar
    } else if character == ESCAPE {
        Action::Cancel
    } else if character == ENTER {
        Action::ConfirmAndExit
    } else if character == KEY_DOWN {
        Action::SelectNext
    } else if character == KEY_UP {
        Action::SelectPrevious
    } else {
        Action::Noop
    }
}

/// What the key with code `character` and name `key` asks.
pub fn classify(character: i32, key: &str) -> (action: Action)
    ensures
        action == action_for(character as int, key@),
{
    if is_special_key(key) {
        handle_special_character(character, key)
    } else {
        Action::InsertChar(key.get_char(0))
    }
}

} // verus!
