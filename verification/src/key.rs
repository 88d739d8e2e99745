use vstd::prelude::*;

verus! {

/// The keys the session tells apart; every other key is `Other`.
#[derive(Clone, Copy, Debug, PartialEq, Eq)]
pub enum KeyCode {
    Char(char),
    Backspace,
    Esc,
    Up,
    Down,
    Other,
}

/// One key press: the key, and whether Control was held with it.
#[derive(Clone, Copy, Debug, PartialEq, Eq)]
pub struct KeyEvent {
    pub code: KeyCode,
    pub control: bool,
}

} // verus!
