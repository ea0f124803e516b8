use vstd::prelude::*;

verus! {

/// The keys the navigation core tells apart.
#[derive(Clone, Copy, Debug, PartialEq, Eq, Structural)]
pub enum KeyCode {
    Char(char),
    Up,
    Down,
    Esc,
    Backspace,
    Enter,
    Tab,
    BackTab,
    Other,
}

/// A key press together with whether Control was held.
#[derive(Clone, Copy, Debug, PartialEq, Eq, Structural)]
pub struct KeyPress {
    pub code: KeyCode,
    pub ctrl: bool,
}

impl KeyPress {
    pub fn new(code: KeyCode, ctrl: bool) -> (r: KeyPress)
        ensures
            r == (KeyPress { code, ctrl }),
    {
        KeyPress { code, ctrl }
    }
}

} // verus!
