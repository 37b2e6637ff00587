use vstd::prelude::*;

verus! {

/// A key press as the screens see it.
#[derive(Clone, Copy, Debug, PartialEq, Eq, Structural)]
pub enum Key {
    Char(char),
    Up,
    Down,
    Tab,
    Esc,
    Enter,
    Backspace,
    /// Any other key; no screen acts on it.
    Other,
}

/// Text after a backspace: the last character removed, if there is one.
pub open spec fn backspaced(s: Seq<char>) -> Seq<char> {
    if s.len() > 0 { s.drop_last() } else { s }
}

} // verus!
