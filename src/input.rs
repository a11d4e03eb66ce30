//! What a single typed key does to a text input: the `j` then `k` escape,
//! and insertion or replacement by mode.
use vstd::prelude::*;

verus! {

/// The editing mode of a text input.
#[derive(Clone, Copy, Debug, PartialEq, Eq, Structural)]
pub enum InputMode {
    Normal,
    Insert,
    Replace,
}

/// What the input does in answer to a typed key.
#[derive(Clone, Copy, Debug, PartialEq, Eq, Structural)]
pub enum TypeAction {
    /// The key is not taken.
    Pass,
    /// Leave the input: `k` typed right after `j`.
    Escape,
    /// Insert the character at the cursor.
    Insert(char),
    /// Replace the character under the cursor.
    Replace(char),
}

impl TypeAction {
    /// Whether the key was taken.
    pub fn handled(self) -> (r: bool)
        ensures
            r == !(self is Pass),
    {
        !matches!(self, TypeAction::Pass)
    }
}

/// The action for a key, given the previous plain key and the mode.
pub open spec fn type_action(last_key: Option<char>, key: Option<char>, mode: InputMode) -> TypeAction {
    match key {
        None => TypeAction::Pass,
        Some(c) => if c == 'k' && last_key == Some('j') {
            TypeAction::Escape
        } else {
            match mode {
                InputMode::Insert => TypeAction::Insert(c),
                InputMode::Replace => TypeAction::Replace(c),
                InputMode::Normal => TypeAction::Pass,
            }
        },
    }
}

/// The previous plain key remembered after a key.
pub open spec fn next_last_key(last_key: Option<char>, key: Option<char>) -> Option<char> {
    match key {
        None => last_key,
        Some(c) => if c == 'k' && last_key == Some('j') {
            None
        } else {
            Some(c)
        },
    }
}

/// Handles one key: `key` is its plain character, if it has one. Updates the
/// remembered previous key and returns what the input should do.
pub fn type_key(last_key: &mut Option<char>, key: Option<char>, mode: InputMode) -> (r: TypeAction)
    ensures
        r == type_action(*old(last_key), key, mode),
        *final(last_key) == next_last_key(*old(last_key), key),
{
    let c = match key {
        Some(c) => c,
        None => return TypeAction::Pass,
    };
    if c == 'k' && *last_key == Some('j') {
        *last_key = None;
        return TypeAction::Escape;
    }
    *last_key = Some(c);
    match mode {
        InputMode::Insert => TypeAction::Insert(c),
        InputMode::Replace => TypeAction::Replace(c),
        InputMode::Normal => TypeAction::Pass,
    }
}

} // verus!
