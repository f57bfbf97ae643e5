//! Event-driven systems that do not share a game state, and the routing of platform events to them.
use vstd::prelude::*;
use crate::key_state::{ButtonState, KeyState};
use crate::platform_event::{routable, Event, Keycode, MouseWheelDirection, Sdl2MouseButton, WindowEvent};
use crate::v::{Extent2, Vec2};

verus! {

/// One notification that an `ESystem` receives.
pub enum ESystemCall {
    QuitRequested,
    TextInput(Seq<char>),
    Key(Keycode, KeyState),
    MouseWheel(Vec2<i32>),
    MouseMotion(Vec2<i32>),
    MouseButton(Sdl2MouseButton, ButtonState),
    /// The new size, and whether the user resized the window.
    CanvasResized(Extent2<u32>, bool),
}

/// A system that reacts to platform events.
pub trait ESystem: Sized {
    /// The system once it has handled `call`.
    spec fn after_call(self, call: ESystemCall) -> Self;

    fn on_quit_requested(&mut self)
        ensures
            *final(self) == old(self).after_call(ESystemCall::QuitRequested),
    ;

    fn on_text_input(&mut self, text: &str)
        ensures
            *final(self) == old(self).after_call(ESystemCall::TextInput(text@)),
    ;

    fn on_key(&mut self, keycode: Keycode, state: KeyState)
        ensures
            *final(self) == old(self).after_call(ESystemCall::Key(keycode, state)),
    ;

    fn on_mouse_wheel(&mut self, delta: Vec2<i32>)
        ensures
            *final(self) == old(self).after_call(ESystemCall::MouseWheel(delta)),
    ;

    fn on_mouse_motion(&mut self, pos: Vec2<i32>)
        ensures
            *final(self) == old(self).after_call(ESystemCall::MouseMotion(pos)),
    ;

    fn on_mouse_button(&mut self, btn: Sdl2MouseButton, state: ButtonState)
        ensures
            *final(self) == old(self).after_call(ESystemCall::MouseButton(btn, state)),
    ;

    fn on_canvas_resized(&mut self, size: Extent2<u32>, by_user: bool)
        ensures
            *final(self) == old(self).after_call(ESystemCall::CanvasResized(size, by_user)),
    ;
}

/// The system once it has handled `calls`, in order.
pub open spec fn after_calls<S: ESystem>(s: S, calls: Seq<ESystemCall>) -> S
    decreases calls.len(),
{
    if calls.len() == 0 {
        s
    } else {
        after_calls(s.after_call(calls[0]), calls.drop_first())
    }
}

/// The notifications, in order, that a system receives for `e`.
pub open spec fn esystem_calls(e: Event) -> Seq<ESystemCall> {
    match e {
        Event::Window { win_event: WindowEvent::Resized(w, h) } => seq![
            ESystemCall::CanvasResized(Extent2 { w: w as u32, h: h as u32 }, true),
        ],
        Event::Window { win_event: WindowEvent::SizeChanged(w, h) } => seq![
            ESystemCall::CanvasResized(Extent2 { w: w as u32, h: h as u32 }, false),
        ],
        Event::Quit => seq![ESystemCall::QuitRequested],
        Event::TextInput { text } => seq![ESystemCall::TextInput(text@)],
        Event::KeyDown { keycode: Some(k), repeat: false, .. } => seq![ESystemCall::Key(k, KeyState::Down)],
        Event::KeyUp { keycode: Some(k), .. } => seq![ESystemCall::Key(k, KeyState::Up)],
        Event::MouseWheel { x, y, direction } => seq![
            ESystemCall::MouseWheel(
                if direction == MouseWheelDirection::Flipped {
                    Vec2 { x: -x as i32, y: -y as i32 }
                } else {
                    Vec2 { x, y }
                },
            ),
        ],
        Event::MouseMotion { x, y } => seq![ESystemCall::MouseMotion(Vec2 { x, y })],
        Event::MouseButtonDown { mouse_btn, x, y } => seq![
            ESystemCall::MouseMotion(Vec2 { x, y }),
            ESystemCall::MouseButton(mouse_btn, KeyState::Down),
        ],
        Event::MouseButtonUp { mouse_btn, x, y } => seq![
            ESystemCall::MouseMotion(Vec2 { x, y }),
            ESystemCall::MouseButton(mouse_btn, KeyState::Up),
        ],
        _ => Seq::empty(),
    }
}

/// Notifies `esys` of `event`.
pub fn dispatch_sdl2_event<S: ESystem>(esys: &mut S, event: &Event)
    requires
        routable(*event),
    ensures
        *final(esys) == after_calls(*old(esys), esystem_calls(*event)),
{
    proof {
        reveal_with_fuel(after_calls, 3);
    }
    let ghost calls = esystem_calls(*event);
    assert(calls.len() == 2 ==> calls.drop_first().drop_first() =~= Seq::<ESystemCall>::empty());
    assert(calls.len() == 1 ==> calls.drop_first() =~= Seq::<ESystemCall>::empty());
    assert(calls.len() == 2 ==> calls.drop_first() =~= seq![calls[1]]);
    match event {
        Event::Window { win_event } => match win_event {
            WindowEvent::Resized(w, h) => {
                esys.on_canvas_resized(Extent2::new(*w as u32, *h as u32), true);
            },
            WindowEvent::SizeChanged(w, h) => {
                esys.on_canvas_resized(Extent2::new(*w as u32, *h as u32), false);
            },
            _ => (),
        },
        Event::Quit => {
            esys.on_quit_requested();
        },
        Event::TextInput { text } => {
            esys.on_text_input(text.as_str());
        },
        Event::KeyDown { keycode, repeat, .. } => {
            if !*repeat {
                if let Some(keycode) = keycode {
                    esys.on_key(*keycode, KeyState::Down);
                }
            }
        },
        Event::KeyUp { keycode, .. } => {
            if let Some(keycode) = keycode {
                esys.on_key(*keycode, KeyState::Up);
            }
        },
        Event::MouseWheel { x, y, direction } => {
            let sign: i32 = match direction {
                MouseWheelDirection::Flipped => -1,
                _ => 1,
            };
            esys.on_mouse_wheel(Vec2::new(*x * sign, *y * sign));
        },
        Event::MouseMotion { x, y } => {
            esys.on_mouse_motion(Vec2::new(*x, *y));
        },
        Event::MouseButtonDown { mouse_btn, x, y } => {
            esys.on_mouse_motion(Vec2::new(*x, *y));
            esys.on_mouse_button(*mouse_btn, KeyState::Down);
        },
        Event::MouseButtonUp { mouse_btn, x, y } => {
            esys.on_mouse_motion(Vec2::new(*x, *y));
            esys.on_mouse_button(*mouse_btn, KeyState::Up);
        },
        _ => (),
    }
}

} // verus!
