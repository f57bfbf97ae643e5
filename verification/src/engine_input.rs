//! The input state of the engine: which keys and mouse buttons are down, and where the pointer is.
use std::collections::HashMap;
use vstd::prelude::*;
use crate::key_state::{ButtonState, KeyState};
use crate::platform_event::{Keycode, Scancode, Sdl2MouseButton};
use crate::v::Vec2;

verus! {

broadcast use vstd::std_specs::hash::group_hash_axioms;

/// A key that changed state.
#[derive(Debug, Copy, Clone, Hash, PartialEq, Eq, Structural)]
pub struct Key {
    pub code: Option<Keycode>,
    pub scancode: Option<Scancode>,
    pub state: KeyState,
}

impl Key {
    pub fn is_down(&self) -> (r: bool)
        ensures
            r == (self.state == KeyState::Down),
    {
        self.state.is_down()
    }

    pub fn is_up(&self) -> (r: bool)
        ensures
            r == (self.state == KeyState::Up),
    {
        self.state.is_up()
    }
}

/// A mouse button that changed state.
#[derive(Debug, Copy, Clone, Hash, PartialEq, Eq, Structural)]
pub struct MouseButton {
    pub button: Sdl2MouseButton,
    pub state: ButtonState,
}

impl MouseButton {
    pub fn is_down(&self) -> (r: bool)
        ensures
            r == (self.state == KeyState::Down),
    {
        self.state.is_down()
    }

    pub fn is_up(&self) -> (r: bool)
        ensures
            r == (self.state == KeyState::Up),
    {
        self.state.is_up()
    }

    pub fn is_left(&self) -> (r: bool)
        ensures
            r == (self.button == Sdl2MouseButton::Left),
    {
        self.button == Sdl2MouseButton::Left
    }

    pub fn is_middle(&self) -> (r: bool)
        ensures
            r == (self.button == Sdl2MouseButton::Middle),
    {
        self.button == Sdl2MouseButton::Middle
    }

    pub fn is_right(&self) -> (r: bool)
        ensures
            r == (self.button == Sdl2MouseButton::Right),
    {
        self.button == Sdl2MouseButton::Right
    }
}

/// The number by which the windowing library identifies a mouse button.
pub open spec fn spec_button_code(b: Sdl2MouseButton) -> u8 {
    match b {
        Sdl2MouseButton::Unknown => 0,
        Sdl2MouseButton::Left => 1,
        Sdl2MouseButton::Middle => 2,
        Sdl2MouseButton::Right => 3,
        Sdl2MouseButton::X1 => 4,
        Sdl2MouseButton::X2 => 5,
    }
}

/// The number by which the windowing library identifies a mouse button.
pub fn button_code(b: Sdl2MouseButton) -> (r: u8)
    ensures
        r == spec_button_code(b),
{
    match b {
        Sdl2MouseButton::Unknown => 0,
        Sdl2MouseButton::Left => 1,
        Sdl2MouseButton::Middle => 2,
        Sdl2MouseButton::Right => 3,
        Sdl2MouseButton::X1 => 4,
        Sdl2MouseButton::X2 => 5,
    }
}

/// The last known state of each key and mouse button, and of the pointer.
#[derive(Debug, Clone, PartialEq)]
pub struct Input {
    keys: HashMap<Keycode, KeyState>,
    mouse_buttons: HashMap<u8, ButtonState>,
    mouse_position: Option<Vec2<i32>>,
    previous_mouse_position: Option<Vec2<i32>>,
}

/// The abstract state of an `Input`.
#[verifier::ext_equal]
pub struct InputView {
    /// The last reported state of each key seen so far.
    pub keys: Map<Keycode, KeyState>,
    /// The last reported state of each mouse button seen so far, by button number.
    pub mouse_buttons: Map<u8, ButtonState>,
    /// Where the pointer is, if it is inside the window.
    pub mouse_position: Option<Vec2<i32>>,
    /// Where the pointer was before its last move.
    pub previous_mouse_position: Option<Vec2<i32>>,
}

/// The state of `k` in a table of states; one never reported is up.
pub open spec fn state_in<K>(m: Map<K, KeyState>, k: K) -> KeyState {
    if m.contains_key(k) {
        m[k]
    } else {
        KeyState::Up
    }
}

impl View for Input {
    type V = InputView;

    closed spec fn view(&self) -> InputView {
        InputView {
            keys: self.keys@,
            mouse_buttons: self.mouse_buttons@,
            mouse_position: self.mouse_position,
            previous_mouse_position: self.previous_mouse_position,
        }
    }
}

impl InputView {
    /// Nothing reported yet.
    pub open spec fn initial() -> InputView {
        InputView {
            keys: Map::empty(),
            mouse_buttons: Map::empty(),
            mouse_position: None,
            previous_mouse_position: None,
        }
    }
}

impl Input {
    pub fn new() -> (r: Input)
        ensures
            r@ == InputView::initial(),
    {
        Input {
            keys: HashMap::new(),
            mouse_buttons: HashMap::new(),
            mouse_position: None,
            previous_mouse_position: None,
        }
    }

    /// The last reported state of key `k` (up if it was never reported).
    pub fn key(&self, k: Keycode) -> (r: KeyState)
        ensures
            r == state_in(self@.keys, k),
    {
        match self.keys.get(&k) {
            Some(s) => *s,
            None => KeyState::Up,
        }
    }

    /// The last reported state of the button of `btn` (up if it was never reported).
    pub fn mouse_button(&self, btn: MouseButton) -> (r: ButtonState)
        ensures
            r == state_in(self@.mouse_buttons, spec_button_code(btn.button)),
    {
        match self.mouse_buttons.get(&button_code(btn.button)) {
            Some(s) => *s,
            None => KeyState::Up,
        }
    }

    pub fn mouse_position(&self) -> (r: Option<Vec2<i32>>)
        ensures
            r == self@.mouse_position,
    {
        self.mouse_position
    }

    pub fn previous_mouse_position(&self) -> (r: Option<Vec2<i32>>)
        ensures
            r == self@.previous_mouse_position,
    {
        self.previous_mouse_position
    }

    /// Records that key `k` is now in state `s`.
    pub fn set_key(&mut self, k: Keycode, s: KeyState)
        ensures
            final(self)@ == (InputView { keys: old(self)@.keys.insert(k, s), ..old(self)@ }),
    {
        self.keys.insert(k, s);
    }

    /// Records that mouse button `b` is now in state `s`.
    pub fn set_mouse_button(&mut self, b: Sdl2MouseButton, s: ButtonState)
        ensures
            final(self)@ == (InputView {
                mouse_buttons: old(self)@.mouse_buttons.insert(spec_button_code(b), s),
                ..old(self)@
            }),
    {
        self.mouse_buttons.insert(button_code(b), s);
    }

    /// Records that the pointer moved to `pos`.
    pub fn set_mouse_position(&mut self, pos: Vec2<i32>)
        ensures
            final(self)@ == (InputView {
                previous_mouse_position: old(self)@.mouse_position,
                mouse_position: Some(pos),
                ..old(self)@
            }),
    {
        self.previous_mouse_position = self.mouse_position;
        self.mouse_position = Some(pos);
    }

    /// Records that the pointer left the window.
    pub fn clear_mouse_position(&mut self)
        ensures
            final(self)@ == (InputView { mouse_position: None, ..old(self)@ }),
    {
        self.mouse_position = None;
    }
}

impl Default for Input {
    fn default() -> (r: Input)
        ensures
            r@ == InputView::initial(),
    {
        Input::new()
    }
}

} // verus!
