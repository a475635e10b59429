use vstd::prelude::*;

verus! {

/// One key press, reduced to the distinctions the core reacts to.
///
/// The surrounding application reads raw terminal events and maps each
/// actionable press to one of these. Any key the core never distinguishes
/// maps to `Other`, which every handler leaves the state unchanged on.
#[derive(Clone, Copy, Debug, PartialEq, Eq, Structural)]
pub enum Key {
    Char(char),
    Up,
    Down,
    Left,
    Esc,
    Tab,
    Backspace,
    Delete,
    Other,
}

} // verus!
