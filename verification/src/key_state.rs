use vstd::prelude::*;

verus! {

/// Whether a key (or a mouse button) is currently held down.
#[derive(Debug, Copy, Clone, Hash, PartialEq, Eq, Structural)]
pub enum KeyState {
    Up,
    Down,
}

/// Mouse buttons share the representation of keys.
pub type ButtonState = KeyState;

impl KeyState {
    /// The state obtained by flipping this one.
    pub open spec fn flipped(self) -> KeyState {
        match self {
            KeyState::Down => KeyState::Up,
            KeyState::Up => KeyState::Down,
        }
    }

    pub fn is_down(&self) -> (r: bool)
        ensures
            r == (*self == KeyState::Down),
    {
        match *self {
            KeyState::Down => true,
            KeyState::Up => false,
        }
    }

    pub fn is_up(&self) -> (r: bool)
        ensures
            r == (*self == KeyState::Up),
    {
        !self.is_down()
    }
}

impl std::ops::Not for KeyState {
    type Output = KeyState;

    /// The opposite state.
    fn not(self) -> (r: KeyState) {
        match self {
            KeyState::Down => KeyState::Up,
            KeyState::Up => KeyState::Down,
        }
    }
}

impl vstd::std_specs::ops::NotSpecImpl for KeyState {
    open spec fn obeys_not_spec() -> bool {
        true
    }

    open spec fn not_req(self) -> bool {
        true
    }

    open spec fn not_spec(self) -> KeyState {
        self.flipped()
    }
}

impl Default for KeyState {
    fn default() -> (r: KeyState)
        ensures
            r == KeyState::Up,
    {
        KeyState::Up
    }
}

} // verus!
