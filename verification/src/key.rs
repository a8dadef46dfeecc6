use vstd::prelude::*;

verus! {

/// A key press as the widgets see it: the code of the key, without modifiers.
#[derive(Clone, Copy, Debug, PartialEq, Eq, Structural)]
pub enum Key {
    /// A printable character.
    Char(char),
    Left,
    Right,
    Up,
    Down,
    Esc,
    /// Any other key; no widget reacts to it.
    Other,
}

/// The key moves the cursor one cell to the left (`h` or the left arrow).
pub open spec fn is_left(k: Key) -> bool {
    k == Key::Char('h') || k == Key::Left
}

/// The key moves the cursor one row down (`j` or the down arrow).
pub open spec fn is_down(k: Key) -> bool {
    k == Key::Char('j') || k == Key::Down
}

/// The key moves the cursor one row up (`k` or the up arrow).
pub open spec fn is_up(k: Key) -> bool {
    k == Key::Char('k') || k == Key::Up
}

/// The key moves the cursor one cell to the right (`l` or the right arrow).
pub open spec fn is_right(k: Key) -> bool {
    k == Key::Char('l') || k == Key::Right
}

} // verus!
