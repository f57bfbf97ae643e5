//! The platform events that the engine reacts to, as plain values: the
//! window-system layer turns each event of the windowing library into one of these.
use vstd::prelude::*;

verus! {

/// A virtual key code, as the windowing library numbers it.
pub type Keycode = i32;

/// A physical key position, as the windowing library numbers it.
pub type Scancode = i32;

/// Key code of the Backspace key.
pub const KEYCODE_BACKSPACE: Keycode = 8i32;
/// Key code of the Tab key.
pub const KEYCODE_TAB: Keycode = 9i32;
/// Key code of the Return key.
pub const KEYCODE_RETURN: Keycode = 13i32;
/// Key code of the Escape key.
pub const KEYCODE_ESCAPE: Keycode = 27i32;
/// Key code of the space bar.
pub const KEYCODE_SPACE: Keycode = 32i32;
/// Key code of the `:` key.
pub const KEYCODE_COLON: Keycode = 58i32;
/// Key code of the A key.
pub const KEYCODE_A: Keycode = 97i32;
/// Key code of the C key.
pub const KEYCODE_C: Keycode = 99i32;
/// Key code of the F key.
pub const KEYCODE_F: Keycode = 102i32;
/// Key code of the G key.
pub const KEYCODE_G: Keycode = 103i32;
/// Key code of the I key.
pub const KEYCODE_I: Keycode = 105i32;
/// Key code of the J key.
pub const KEYCODE_J: Keycode = 106i32;
/// Key code of the K key.
pub const KEYCODE_K: Keycode = 107i32;
/// Key code of the L key.
pub const KEYCODE_L: Keycode = 108i32;
/// Key code of the M key.
pub const KEYCODE_M: Keycode = 109i32;
/// Key code of the O key.
pub const KEYCODE_O: Keycode = 111i32;
/// Key code of the P key.
pub const KEYCODE_P: Keycode = 112i32;
/// Key code of the R key.
pub const KEYCODE_R: Keycode = 114i32;
/// Key code of the T key.
pub const KEYCODE_T: Keycode = 116i32;
/// Key code of the U key.
pub const KEYCODE_U: Keycode = 117i32;
/// Key code of the X key.
pub const KEYCODE_X: Keycode = 120i32;
/// Key code of the Delete key.
pub const KEYCODE_DELETE: Keycode = 127i32;
/// Key code of the Enter key of the keypad.
pub const KEYCODE_KP_ENTER: Keycode = 1073741912i32;
/// Key code of the second Return key.
pub const KEYCODE_RETURN2: Keycode = 1073741982i32;
/// Key code of the F6 function key.
pub const KEYCODE_F6: Keycode = 1073741887i32;
/// Key code of the F7 function key.
pub const KEYCODE_F7: Keycode = 1073741888i32;
/// Key code of the F8 function key.
pub const KEYCODE_F8: Keycode = 1073741889i32;

/// A mouse button as the windowing library reports it.
#[derive(Debug, Copy, Clone, Hash, PartialEq, Eq, Structural)]
pub enum Sdl2MouseButton {
    Unknown,
    Left,
    Middle,
    Right,
    X1,
    X2,
}

/// Whether a scroll amount is reported as is or with both axes negated.
#[derive(Debug, Copy, Clone, Hash, PartialEq, Eq, Structural)]
pub enum MouseWheelDirection {
    Normal,
    Flipped,
    Unknown,
}

/// What happened to the window.
#[derive(Debug, Copy, Clone, Hash, PartialEq, Eq, Structural)]
pub enum WindowEvent {
    Resized(i32, i32),
    SizeChanged(i32, i32),
    Enter,
    Leave,
    /// Any window event that the engine does not react to.
    Other,
}

/// An input or window event.
#[derive(Debug, Clone, PartialEq, Eq)]
pub enum Event {
    Window { win_event: WindowEvent },
    Quit,
    TextInput { text: String },
    KeyDown { keycode: Option<Keycode>, scancode: Option<Scancode>, repeat: bool },
    KeyUp { keycode: Option<Keycode>, scancode: Option<Scancode> },
    MouseWheel { x: i32, y: i32, direction: MouseWheelDirection },
    MouseButtonDown { mouse_btn: Sdl2MouseButton, x: i32, y: i32 },
    MouseButtonUp { mouse_btn: Sdl2MouseButton, x: i32, y: i32 },
    MouseMotion { x: i32, y: i32 },
    /// Any event that the engine does not react to.
    Other,
}

/// Whether an event can be routed to systems and subscribers: a flipped scroll
/// amount must be negatable.
pub open spec fn routable(e: Event) -> bool {
    match e {
        Event::MouseWheel { x, y, direction } => direction == MouseWheelDirection::Flipped ==> x
            != i32::MIN && y != i32::MIN,
        _ => true,
    }
}

/// Whether `e` can be routed to systems and subscribers.
pub fn is_routable(e: &Event) -> (r: bool)
    ensures
        r == routable(*e),
{
    match e {
        Event::MouseWheel { x, y, direction } => match direction {
            MouseWheelDirection::Flipped => *x != i32::MIN && *y != i32::MIN,
            _ => true,
        },
        _ => true,
    }
}

/// The name the engine's systems use for the windowing library's events.
pub type Sdl2Event = Event;

} // verus!
