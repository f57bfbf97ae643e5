//! Routing of platform events to the objects that subscribe to them.
use vstd::prelude::*;
use crate::key_state::{ButtonState, KeyState};
use crate::platform_event::{routable, Event, Keycode, MouseWheelDirection, Sdl2MouseButton, WindowEvent};
use crate::v::{Extent2, Vec2};

verus! {

/// A key that changed state.
#[derive(Debug, Copy, Clone, Hash, PartialEq, Eq, Structural)]
pub struct KeyInput {
    pub keycode: Keycode,
    pub state: KeyState,
}

/// A mouse button that changed state.
#[derive(Debug, Copy, Clone, Hash, PartialEq, Eq, Structural)]
pub struct MouseButtonInput {
    pub button: Sdl2MouseButton,
    pub state: ButtonState,
}

/// One notification that a subscriber receives.
pub enum SubscriberCall {
    WantsToQuit,
    TextInput(Seq<char>),
    Key(KeyInput),
    Scroll(Vec2<i32>),
    MouseMotion(Vec2<i32>),
    MouseButton(MouseButtonInput),
    WindowResized(Extent2<u32>),
    WindowSizeChanged(Extent2<u32>),
}

/// Something that reacts to platform events.
pub trait Sdl2EventSubscriber: Sized {
    /// The subscriber once it has handled `call`.
    spec fn after_call(self, call: SubscriberCall) -> Self;

    fn on_wants_to_quit(&mut self)
        ensures
            *final(self) == old(self).after_call(SubscriberCall::WantsToQuit),
    ;

    fn on_text_input(&mut self, text: &str)
        ensures
            *final(self) == old(self).after_call(SubscriberCall::TextInput(text@)),
    ;

    fn on_key(&mut self, key: KeyInput)
        ensures
            *final(self) == old(self).after_call(SubscriberCall::Key(key)),
    ;

    fn on_scroll(&mut self, delta: Vec2<i32>)
        ensures
            *final(self) == old(self).after_call(SubscriberCall::Scroll(delta)),
    ;

    fn on_mouse_motion(&mut self, pos: Vec2<i32>)
        ensures
            *final(self) == old(self).after_call(SubscriberCall::MouseMotion(pos)),
    ;

    fn on_mouse_button(&mut self, btn: MouseButtonInput)
        ensures
            *final(self) == old(self).after_call(SubscriberCall::MouseButton(btn)),
    ;

    fn on_window_resized(&mut self, size: Extent2<u32>)
        ensures
            *final(self) == old(self).after_call(SubscriberCall::WindowResized(size)),
    ;

    fn on_window_size_changed(&mut self, size: Extent2<u32>)
        ensures
            *final(self) == old(self).after_call(SubscriberCall::WindowSizeChanged(size)),
    ;
}

/// The notifications, in order, that a subscriber receives for `e`.
pub open spec fn subscriber_calls(e: Event) -> Seq<SubscriberCall> {
    match e {
        Event::Window { win_event: WindowEvent::Resized(w, h) } => seq![
            SubscriberCall::WindowResized(Extent2 { w: w as u32, h: h as u32 }),
        ],
        Event::Window { win_event: WindowEvent::SizeChanged(w, h) } => seq![
            SubscriberCall::WindowSizeChanged(Extent2 { w: w as u32, h: h as u32 }),
        ],
        Event::Quit => seq![SubscriberCall::WantsToQuit],
        Event::TextInput { text } => seq![SubscriberCall::TextInput(text@)],
        Event::KeyDown { keycode: Some(k), repeat: false, .. } => seq![
            SubscriberCall::Key(KeyInput { keycode: k, state: KeyState::Down }),
        ],
        Event::KeyUp { keycode: Some(k), .. } => seq![
            SubscriberCall::Key(KeyInput { keycode: k, state: KeyState::Up }),
        ],
        Event::MouseWheel { x, y, direction } => seq![
            SubscriberCall::Scroll(
                if direction == MouseWheelDirection::Flipped {
                    Vec2 { x: -x as i32, y: -y as i32 }
                } else {
                    Vec2 { x, y }
                },
            ),
        ],
        Event::MouseButtonDown { mouse_btn, x, y } => seq![
            SubscriberCall::MouseMotion(Vec2 { x, y }),
            SubscriberCall::MouseButton(MouseButtonInput { button: mouse_btn, state: KeyState::Down }),
        ],
        Event::MouseButtonUp { mouse_btn, x, y } => seq![
            SubscriberCall::MouseMotion(Vec2 { x, y }),
            SubscriberCall::MouseButton(MouseButtonInput { button: mouse_btn, state: KeyState::Up }),
        ],
        Event::MouseMotion { x, y } => seq![SubscriberCall::MouseMotion(Vec2 { x, y })],
        _ => Seq::empty(),
    }
}

/// The subscriber once it has handled `calls`, in order.
pub open spec fn after_calls<S: Sdl2EventSubscriber>(s: S, calls: Seq<SubscriberCall>) -> S
    decreases calls.len(),
{
    if calls.len() == 0 {
        s
    } else {
        after_calls(s.after_call(calls[0]), calls.drop_first())
    }
}

/// Notifies `slf` of `event`.
pub fn dispatch_sdl2_event<S: Sdl2EventSubscriber>(slf: &mut S, event: &Event)
    requires
        routable(*event),
    ensures
        *final(slf) == after_calls(*old(slf), subscriber_calls(*event)),
{
    proof {
        reveal_with_fuel(after_calls, 3);
    }
    let ghost calls = subscriber_calls(*event);
    assert(calls.len() == 2 ==> calls.drop_first().drop_first() =~= Seq::<SubscriberCall>::empty());
    assert(calls.len() == 1 ==> calls.drop_first() =~= Seq::<SubscriberCall>::empty());
    assert(calls.len() == 2 ==> calls.drop_first() =~= seq![calls[1]]);
    match event {
        Event::Window { win_event } => match win_event {
            WindowEvent::Resized(w, h) => {
                slf.on_window_resized(Extent2::new(*w as u32, *h as u32));
            },
            WindowEvent::SizeChanged(w, h) => {
                slf.on_window_size_changed(Extent2::new(*w as u32, *h as u32));
            },
            _ => (),
        },
        Event::Quit => {
            slf.on_wants_to_quit();
        },
        Event::TextInput { text } => {
            slf.on_text_input(text.as_str());
        },
        Event::KeyDown { keycode, repeat, .. } => {
            if !*repeat {
                if let Some(keycode) = keycode {
                    slf.on_key(KeyInput { keycode: *keycode, state: KeyState::Down });
                }
            }
        },
        Event::KeyUp { keycode, .. } => {
            if let Some(keycode) = keycode {
                slf.on_key(KeyInput { keycode: *keycode, state: KeyState::Up });
            }
        },
        Event::MouseWheel { x, y, direction } => {
            let inc = match direction {
                MouseWheelDirection::Flipped => Vec2::new(-*x, -*y),
                _ => Vec2::new(*x, *y),
            };
            slf.on_scroll(inc);
        },
        Event::MouseButtonDown { mouse_btn, x, y } => {
            slf.on_mouse_motion(Vec2::new(*x, *y));
            slf.on_mouse_button(MouseButtonInput { button: *mouse_btn, state: KeyState::Down });
        },
        Event::MouseButtonUp { mouse_btn, x, y } => {
            slf.on_mouse_motion(Vec2::new(*x, *y));
            slf.on_mouse_button(MouseButtonInput { button: *mouse_btn, state: KeyState::Up });
        },
        Event::MouseMotion { x, y } => {
            slf.on_mouse_motion(Vec2::new(*x, *y));
        },
        _ => (),
    }
}

} // verus!
