use vstd::prelude::*;

verus! {

/// A key press, as far as the editor tells keys apart.
#[derive(Clone, Copy, Debug, PartialEq, Eq, Structural)]
pub enum Key {
    Up,
    Down,
    Left,
    Right,
    Enter,
    Char(char),
    /// Any key the editor does not react to.
    Other,
}

} // verus!
