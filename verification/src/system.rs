//! The systems of the engine, and the routing of platform events and messages to them.
use vstd::prelude::*;
use crate::engine_input::{Key, MouseButton};
use crate::game::{Game, GameView};
use crate::key_state::KeyState;
use crate::message::Message;
use crate::platform_event::{routable, Event, MouseWheelDirection, WindowEvent};
use crate::v::{Extent2, Vec2};
use std::collections::VecDeque;

verus! {

/// One notification that a system receives.
pub enum SystemCall {
    QuitRequested,
    TextInput(Seq<char>),
    Key(Key),
    MouseScroll(Vec2<i32>),
    MouseMotion(Vec2<i32>),
    MouseButton(MouseButton),
    MouseEnter,
    MouseLeave,
    /// The new size, and whether the user resized the window.
    CanvasResized(Extent2<u32>, bool),
    Message(Message),
}

/// A part of the game that reacts to platform events and to messages.
pub trait System: Sized {
    /// The system and the game state once the system has handled `call`.
    spec fn after_call(self, g: GameView, call: SystemCall) -> (Self, GameView);

    fn name(&self) -> &str;

    fn on_quit_requested(&mut self, g: &mut Game)
        ensures
            (*final(self), final(g)@) == old(self).after_call(old(g)@, SystemCall::QuitRequested),
    ;

    fn on_text_input(&mut self, g: &mut Game, text: &str)
        ensures
            (*final(self), final(g)@) == old(self).after_call(old(g)@, SystemCall::TextInput(text@)),
    ;

    fn on_key(&mut self, g: &mut Game, key: Key)
        ensures
            (*final(self), final(g)@) == old(self).after_call(old(g)@, SystemCall::Key(key)),
    ;

    fn on_mouse_scroll(&mut self, g: &mut Game, delta: Vec2<i32>)
        ensures
            (*final(self), final(g)@) == old(self).after_call(old(g)@, SystemCall::MouseScroll(delta)),
    ;

    fn on_mouse_motion(&mut self, g: &mut Game, pos: Vec2<i32>)
        ensures
            (*final(self), final(g)@) == old(self).after_call(old(g)@, SystemCall::MouseMotion(pos)),
    ;

    fn on_mouse_button(&mut self, g: &mut Game, btn: MouseButton)
        ensures
            (*final(self), final(g)@) == old(self).after_call(old(g)@, SystemCall::MouseButton(btn)),
    ;

    fn on_mouse_enter(&mut self, g: &mut Game)
        ensures
            (*final(self), final(g)@) == old(self).after_call(old(g)@, SystemCall::MouseEnter),
    ;

    fn on_mouse_leave(&mut self, g: &mut Game)
        ensures
            (*final(self), final(g)@) == old(self).after_call(old(g)@, SystemCall::MouseLeave),
    ;

    fn on_canvas_resized(&mut self, g: &mut Game, size: Extent2<u32>, by_user: bool)
        ensures
            (*final(self), final(g)@) == old(self).after_call(
                old(g)@,
                SystemCall::CanvasResized(size, by_user),
            ),
    ;

    fn on_message(&mut self, g: &mut Game, msg: &Message)
        ensures
            (*final(self), final(g)@) == old(self).after_call(old(g)@, SystemCall::Message(*msg)),
    ;
}

/// The system and the game state once the system has handled `calls`, in order.
pub open spec fn after_calls<S: System>(s: S, g: GameView, calls: Seq<SystemCall>) -> (S, GameView)
    decreases calls.len(),
{
    if calls.len() == 0 {
        (s, g)
    } else {
        let (s1, g1) = s.after_call(g, calls[0]);
        after_calls(s1, g1, calls.drop_first())
    }
}

/// The notifications, in order, that a system receives for `e`; `pointer` is where the
/// platform reports the pointer at the time.
pub open spec fn system_calls(e: Event, pointer: Vec2<i32>) -> Seq<SystemCall> {
    match e {
        Event::Window { win_event: WindowEvent::Resized(w, h) } => seq![
            SystemCall::CanvasResized(Extent2 { w: w as u32, h: h as u32 }, true),
        ],
        Event::Window { win_event: WindowEvent::SizeChanged(w, h) } => seq![
            SystemCall::CanvasResized(Extent2 { w: w as u32, h: h as u32 }, false),
        ],
        Event::Window { win_event: WindowEvent::Enter } => seq![
            SystemCall::MouseEnter,
            SystemCall::MouseMotion(pointer),
        ],
        Event::Window { win_event: WindowEvent::Leave } => seq![SystemCall::MouseLeave],
        Event::Quit => seq![SystemCall::QuitRequested],
        Event::TextInput { text } => seq![SystemCall::TextInput(text@)],
        Event::KeyDown { keycode, scancode, repeat: false } => seq![
            SystemCall::Key(Key { code: keycode, scancode, state: KeyState::Down }),
        ],
        Event::KeyUp { keycode, scancode } => seq![
            SystemCall::Key(Key { code: keycode, scancode, state: KeyState::Up }),
        ],
        Event::MouseWheel { x, y, direction } => seq![
            SystemCall::MouseScroll(
                if direction == MouseWheelDirection::Flipped {
                    Vec2 { x: -x as i32, y: -y as i32 }
                } else {
                    Vec2 { x, y }
                },
            ),
        ],
        Event::MouseMotion { x, y } => seq![SystemCall::MouseMotion(Vec2 { x, y })],
        Event::MouseButtonDown { mouse_btn, x, y } => seq![
            SystemCall::MouseMotion(Vec2 { x, y }),
            SystemCall::MouseButton(MouseButton { button: mouse_btn, state: KeyState::Down }),
        ],
        Event::MouseButtonUp { mouse_btn, x, y } => seq![
            SystemCall::MouseMotion(Vec2 { x, y }),
            SystemCall::MouseButton(MouseButton { button: mouse_btn, state: KeyState::Up }),
        ],
        _ => Seq::empty(),
    }
}

/// Delivers `msg` to `esys`.
pub fn dispatch_message<S: System>(esys: &mut S, g: &mut Game, msg: &Message)
    ensures
        (*final(esys), final(g)@) == old(esys).after_call(old(g)@, SystemCall::Message(*msg)),
{
    esys.on_message(g, msg);
}

/// Notifies `esys` of `event`; `pointer` is where the platform reports the pointer now.
pub fn dispatch_sdl2_event<S: System>(esys: &mut S, g: &mut Game, event: &Event, pointer: Vec2<i32>)
    requires
        routable(*event),
    ensures
        (*final(esys), final(g)@) == after_calls(*old(esys), old(g)@, system_calls(*event, pointer)),
{
    proof {
        reveal_with_fuel(after_calls, 3);
    }
    let ghost calls = system_calls(*event, pointer);
    assert(calls.len() == 2 ==> calls.drop_first().drop_first() =~= Seq::<SystemCall>::empty());
    assert(calls.len() == 1 ==> calls.drop_first() =~= Seq::<SystemCall>::empty());
    assert(calls.len() == 2 ==> calls.drop_first() =~= seq![calls[1]]);
    match event {
        Event::Window { win_event } => match win_event {
            WindowEvent::Resized(w, h) => {
                esys.on_canvas_resized(g, Extent2::new(*w as u32, *h as u32), true);
            },
            WindowEvent::SizeChanged(w, h) => {
                esys.on_canvas_resized(g, Extent2::new(*w as u32, *h as u32), false);
            },
            WindowEvent::Enter => {
                esys.on_mouse_enter(g);
                esys.on_mouse_motion(g, pointer);
            },
            WindowEvent::Leave => {
                esys.on_mouse_leave(g);
            },
            _ => (),
        },
        Event::Quit => {
            esys.on_quit_requested(g);
        },
        Event::TextInput { text } => {
            esys.on_text_input(g, text.as_str());
        },
        Event::KeyDown { keycode, scancode, repeat } => {
            if !*repeat {
                esys.on_key(g, Key { code: *keycode, scancode: *scancode, state: KeyState::Down });
            }
        },
        Event::KeyUp { keycode, scancode } => {
            esys.on_key(g, Key { code: *keycode, scancode: *scancode, state: KeyState::Up });
        },
        Event::MouseWheel { x, y, direction } => {
            let sign: i32 = match direction {
                MouseWheelDirection::Flipped => -1,
                _ => 1,
            };
            esys.on_mouse_scroll(g, Vec2::new(*x * sign, *y * sign));
        },
        Event::MouseMotion { x, y } => {
            esys.on_mouse_motion(g, Vec2::new(*x, *y));
        },
        Event::MouseButtonDown { mouse_btn, x, y } => {
            esys.on_mouse_motion(g, Vec2::new(*x, *y));
            esys.on_mouse_button(g, MouseButton { button: *mouse_btn, state: KeyState::Down });
        },
        Event::MouseButtonUp { mouse_btn, x, y } => {
            esys.on_mouse_motion(g, Vec2::new(*x, *y));
            esys.on_mouse_button(g, MouseButton { button: *mouse_btn, state: KeyState::Up });
        },
        _ => (),
    }
}

/// A notification for a system, as a plain value that can be handed to code that is
/// not a `System`.
#[derive(Debug, Clone, PartialEq, Eq)]
pub enum SystemInput {
    QuitRequested,
    TextInput(String),
    Key(Key),
    MouseScroll(Vec2<i32>),
    MouseMotion(Vec2<i32>),
    MouseButton(MouseButton),
    MouseEnter,
    MouseLeave,
    /// The new size, and whether the user resized the window.
    CanvasResized(Extent2<u32>, bool),
}

impl SystemInput {
    /// The notification that this input stands for.
    pub open spec fn call(self) -> SystemCall {
        match self {
            SystemInput::QuitRequested => SystemCall::QuitRequested,
            SystemInput::TextInput(t) => SystemCall::TextInput(t@),
            SystemInput::Key(k) => SystemCall::Key(k),
            SystemInput::MouseScroll(d) => SystemCall::MouseScroll(d),
            SystemInput::MouseMotion(p) => SystemCall::MouseMotion(p),
            SystemInput::MouseButton(b) => SystemCall::MouseButton(b),
            SystemInput::MouseEnter => SystemCall::MouseEnter,
            SystemInput::MouseLeave => SystemCall::MouseLeave,
            SystemInput::CanvasResized(size, by_user) => SystemCall::CanvasResized(size, by_user),
        }
    }
}

/// The notifications, in order, that a system receives for `event`; `pointer` is where
/// the platform reports the pointer now.
pub fn system_inputs(event: &Event, pointer: Vec2<i32>) -> (r: Vec<SystemInput>)
    requires
        routable(*event),
    ensures
        r@.map_values(|i: SystemInput| i.call()) == system_calls(*event, pointer),
{
    let r: Vec<SystemInput> = match event {
        Event::Window { win_event } => match win_event {
            WindowEvent::Resized(w, h) => vec![SystemInput::CanvasResized(Extent2::new(*w as u32, *h as u32), true)],
            WindowEvent::SizeChanged(w, h) => vec![SystemInput::CanvasResized(Extent2::new(*w as u32, *h as u32), false)],
            WindowEvent::Enter => vec![SystemInput::MouseEnter, SystemInput::MouseMotion(pointer)],
            WindowEvent::Leave => vec![SystemInput::MouseLeave],
            _ => Vec::new(),
        },
        Event::Quit => vec![SystemInput::QuitRequested],
        Event::TextInput { text } => vec![SystemInput::TextInput(text.clone())],
        Event::KeyDown { keycode, scancode, repeat } => {
            if *repeat {
                Vec::new()
            } else {
                vec![SystemInput::Key(Key { code: *keycode, scancode: *scancode, state: KeyState::Down })]
            }
        },
        Event::KeyUp { keycode, scancode } => vec![
            SystemInput::Key(Key { code: *keycode, scancode: *scancode, state: KeyState::Up }),
        ],
        Event::MouseWheel { x, y, direction } => {
            let sign: i32 = match direction {
                MouseWheelDirection::Flipped => -1,
                _ => 1,
            };
            vec![SystemInput::MouseScroll(Vec2::new(*x * sign, *y * sign))]
        },
        Event::MouseMotion { x, y } => vec![SystemInput::MouseMotion(Vec2::new(*x, *y))],
        Event::MouseButtonDown { mouse_btn, x, y } => vec![
            SystemInput::MouseMotion(Vec2::new(*x, *y)),
            SystemInput::MouseButton(MouseButton { button: *mouse_btn, state: KeyState::Down }),
        ],
        Event::MouseButtonUp { mouse_btn, x, y } => vec![
            SystemInput::MouseMotion(Vec2::new(*x, *y)),
            SystemInput::MouseButton(MouseButton { button: *mouse_btn, state: KeyState::Up }),
        ],
        _ => Vec::new(),
    };
    assert(r@.map_values(|i: SystemInput| i.call()) =~= system_calls(*event, pointer));
    r
}

/// The next message to deliver, with what is left of the batch being delivered and of the
/// queue: the front of the batch; once the batch is done, everything queued since becomes
/// the new batch (and the queue is emptied); nothing when both are empty.
pub open spec fn next_message_of(batch: Seq<Message>, queue: Seq<Message>) -> Option<(Message, Seq<Message>, Seq<Message>)> {
    if batch.len() > 0 {
        Some((batch[0], batch.drop_first(), queue))
    } else if queue.len() > 0 {
        Some((queue[0], queue.drop_first(), Seq::empty()))
    } else {
        None
    }
}

/// Takes the next message to deliver (see `next_message_of`): from `batch`, or, when
/// `batch` is empty, from the messages queued in `g`, which then become the batch.
pub fn next_message(g: &mut Game, batch: &mut VecDeque<Message>) -> (r: Option<Message>)
    ensures
        match next_message_of(old(batch)@, old(g)@.messages) {
            None => r is None && final(batch)@ == old(batch)@ && final(g)@ == old(g)@,
            Some((m, rest, queue)) => r == Some(m) && final(batch)@ == rest && final(g)@ == (GameView {
                messages: queue,
                ..old(g)@
            }),
        },
{
    if batch.len() == 0 {
        std::mem::swap(batch, &mut g.messages);
    }
    let r = batch.pop_front();
    proof {
        if r is Some {
            assert(batch@ =~= next_message_of(old(batch)@, old(g)@.messages)->Some_0.1);
        }
    }
    r
}

/// The three systems, the game state, the batch being delivered, and the messages
/// delivered, once at most `n` messages are taken (see `next_message_of`) and each is
/// delivered to `a`, then `b`, then `c`. Messages that the systems queue while handling
/// one are delivered too, after the ones queued before them.
pub open spec fn pumped<A: System, B: System, C: System>(
    a: A,
    b: B,
    c: C,
    g: GameView,
    batch: Seq<Message>,
    n: nat,
) -> (A, B, C, GameView, Seq<Message>, Seq<Message>)
    decreases n,
{
    if n == 0 {
        (a, b, c, g, batch, Seq::empty())
    } else {
        match next_message_of(batch, g.messages) {
            None => (a, b, c, g, batch, Seq::empty()),
            Some((m, rest, queue)) => {
                let g0 = GameView { messages: queue, ..g };
                let (a1, g1) = a.after_call(g0, SystemCall::Message(m));
                let (b1, g2) = b.after_call(g1, SystemCall::Message(m));
                let (c1, g3) = c.after_call(g2, SystemCall::Message(m));
                let after = pumped(a1, b1, c1, g3, rest, (n - 1) as nat);
                (after.0, after.1, after.2, after.3, after.4, seq![m] + after.5)
            },
        }
    }
}

/// Whether delivering messages from state `(a, b, c, g)` with an empty batch runs out of
/// messages within `n` deliveries: the systems queue only finitely many.
pub open spec fn pump_ends<A: System, B: System, C: System>(a: A, b: B, c: C, g: GameView, n: nat) -> bool {
    let after = pumped(a, b, c, g, Seq::empty(), n);
    after.3.messages.len() == 0 && after.4.len() == 0
}

/// Once no message is left, delivering more changes nothing.
proof fn lemma_pumped_done<A: System, B: System, C: System>(a: A, b: B, c: C, g: GameView, batch: Seq<Message>, n: nat)
    requires
        batch.len() == 0,
        g.messages.len() == 0,
    ensures
        pumped(a, b, c, g, batch, n) == (a, b, c, g, batch, Seq::<Message>::empty()),
{
}

/// Delivers every queued message to `a`, `b` and `c`, including the messages they queue
/// while handling one, and returns the messages in the order delivered: the messages
/// queued so far are taken as a batch and each is delivered to `a`, then `b`, then `c`
/// before the next one; then whatever was queued meanwhile forms the next batch, until
/// nothing is queued. The systems must queue only finitely many messages.
pub fn pump_messages<A: System, B: System, C: System>(g: &mut Game, a: &mut A, b: &mut B, c: &mut C) -> (r: Vec<Message>)
    requires
        exists|n: nat| pump_ends(*old(a), *old(b), *old(c), old(g)@, n),
    ensures
        ({
            let n = choose|n: nat| pump_ends(*old(a), *old(b), *old(c), old(g)@, n);
            let after = pumped(*old(a), *old(b), *old(c), old(g)@, Seq::empty(), n);
            &&& (*final(a), *final(b), *final(c), final(g)@) == (after.0, after.1, after.2, after.3)
            &&& r@ == after.5
            &&& final(g)@.messages.len() == 0
        }),
{
    let ghost n = choose|n: nat| pump_ends(*a, *b, *c, g@, n);
    let ghost all = pumped(*a, *b, *c, g@, Seq::empty(), n);
    let mut batch: VecDeque<Message> = VecDeque::new();
    let mut delivered: Vec<Message> = Vec::new();
    loop
        invariant
            delivered@.len() <= n,
            all.3.messages.len() == 0,
            all.4.len() == 0,
            ({
                let cur = pumped(*a, *b, *c, g@, batch@, (n - delivered@.len()) as nat);
                &&& (cur.0, cur.1, cur.2, cur.3, cur.4) == (all.0, all.1, all.2, all.3, all.4)
                &&& delivered@ + cur.5 == all.5
            }),
        ensures
            (*a, *b, *c, g@) == (all.0, all.1, all.2, all.3),
            delivered@ == all.5,
            g@.messages.len() == 0,
        decreases n - delivered@.len(),
    {
        let ghost k = (n - delivered@.len()) as nat;
        let ghost before = (*a, *b, *c, g@, batch@);
        match next_message(g, &mut batch) {
            None => {
                proof {
                    lemma_pumped_done(before.0, before.1, before.2, before.3, before.4, k);
                    assert(delivered@ + Seq::<Message>::empty() =~= delivered@);
                }
                break;
            },
            Some(m) => {
                assert(k > 0);
                let ghost g0 = g@;
                dispatch_message(a, g, &m);
                dispatch_message(b, g, &m);
                dispatch_message(c, g, &m);
                let ghost rest = pumped(*a, *b, *c, g@, batch@, (k - 1) as nat);
                assert(pumped(before.0, before.1, before.2, before.3, before.4, k).5 == seq![m] + rest.5);
                assert(delivered@.push(m) + rest.5 =~= delivered@ + (seq![m] + rest.5));
                delivered.push(m);
            },
        }
    }
    delivered
}

} // verus!
