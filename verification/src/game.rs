//! The engine's shared state, and the systems that every game has.
use std::collections::VecDeque;
use vstd::prelude::*;
use crate::engine_input::{Input, InputView, Key, MouseButton, state_in};
use crate::message::{GameMode, Message};
use crate::platform_event::{KEYCODE_F6, KEYCODE_F7, KEYCODE_F8};
use crate::system::{System, SystemCall};
use crate::v::{Extent2, Vec2};

verus! {

/// Whether shapes are drawn with their outline, and with their vertices.
#[derive(Debug, Copy, Clone, Hash, PartialEq, Eq, Structural)]
pub struct ShapeStrokeFlags {
    pub do_draw_shape_stroke_lines: bool,
    pub do_draw_shape_stroke_points: bool,
}

/// The state that all systems share.
#[derive(Debug, Clone, PartialEq)]
pub struct Game {
    pub wants_to_quit: bool,
    pub input: Input,
    pub messages: VecDeque<Message>,
    pub game_mode: GameMode,
    pub canvas_size: Extent2<u32>,
    pub shape_stroke: ShapeStrokeFlags,
}

/// The abstract state of a `Game`.
#[verifier::ext_equal]
pub struct GameView {
    pub wants_to_quit: bool,
    pub input: InputView,
    /// Messages sent and not yet delivered, oldest first.
    pub messages: Seq<Message>,
    pub game_mode: GameMode,
    pub canvas_size: Extent2<u32>,
    pub shape_stroke: ShapeStrokeFlags,
}

impl View for Game {
    type V = GameView;

    open spec fn view(&self) -> GameView {
        GameView {
            wants_to_quit: self.wants_to_quit,
            input: self.input@,
            messages: self.messages@,
            game_mode: self.game_mode,
            canvas_size: self.canvas_size,
            shape_stroke: self.shape_stroke,
        }
    }
}

impl Game {
    /// A game that does not want to quit, with no input and no message yet.
    pub fn new(canvas_size: Extent2<u32>, game_mode: GameMode, shape_stroke: ShapeStrokeFlags) -> (r: Game)
        ensures
            !r@.wants_to_quit,
            r@.input == InputView::initial(),
            r@.messages == Seq::<Message>::empty(),
            r@.game_mode == game_mode,
            r@.canvas_size == canvas_size,
            r@.shape_stroke == shape_stroke,
    {
        Game {
            wants_to_quit: false,
            input: Input::new(),
            messages: VecDeque::new(),
            game_mode,
            canvas_size,
            shape_stroke,
        }
    }

    pub fn should_quit(&self) -> (r: bool)
        ensures
            r == self.wants_to_quit,
    {
        self.wants_to_quit
    }

    /// Queues `msg` for every system.
    pub fn send(&mut self, msg: Message)
        ensures
            final(self)@ == (GameView { messages: old(self)@.messages.push(msg), ..old(self)@ }),
    {
        self.messages.push_back(msg);
    }
}

/// The system that lets the game end when asked to.
#[derive(Debug, Copy, Clone, PartialEq, Eq, Structural)]
pub struct QuitSystem;

impl System for QuitSystem {
    /// A request to quit makes the game want to quit; nothing else matters.
    open spec fn after_call(self, g: GameView, call: SystemCall) -> (QuitSystem, GameView) {
        match call {
            SystemCall::QuitRequested => (self, GameView { wants_to_quit: true, ..g }),
            _ => (self, g),
        }
    }

    fn name(&self) -> (r: &str)
        ensures
            r@ == "QuitSystem"@,
    {
        "QuitSystem"
    }

    fn on_quit_requested(&mut self, g: &mut Game) {
        g.wants_to_quit = true;
    }

    fn on_text_input(&mut self, _g: &mut Game, _text: &str) {
    }

    fn on_key(&mut self, _g: &mut Game, _key: Key) {
    }

    fn on_mouse_scroll(&mut self, _g: &mut Game, _delta: Vec2<i32>) {
    }

    fn on_mouse_motion(&mut self, _g: &mut Game, _pos: Vec2<i32>) {
    }

    fn on_mouse_button(&mut self, _g: &mut Game, _btn: MouseButton) {
    }

    fn on_mouse_enter(&mut self, _g: &mut Game) {
    }

    fn on_mouse_leave(&mut self, _g: &mut Game) {
    }

    fn on_canvas_resized(&mut self, _g: &mut Game, _size: Extent2<u32>, _by_user: bool) {
    }

    fn on_message(&mut self, _g: &mut Game, _msg: &Message) {
    }
}

/// The system that keeps track of the canvas size.
#[derive(Debug, Copy, Clone, PartialEq, Eq, Structural)]
pub struct PlatformSystem;

impl System for PlatformSystem {
    /// A resized canvas is recorded; nothing else matters.
    open spec fn after_call(self, g: GameView, call: SystemCall) -> (PlatformSystem, GameView) {
        match call {
            SystemCall::CanvasResized(size, _) => (self, GameView { canvas_size: size, ..g }),
            _ => (self, g),
        }
    }

    fn name(&self) -> (r: &str)
        ensures
            r@ == "PlatformSystem"@,
    {
        "PlatformSystem"
    }

    fn on_quit_requested(&mut self, _g: &mut Game) {
    }

    fn on_text_input(&mut self, _g: &mut Game, _text: &str) {
    }

    fn on_key(&mut self, _g: &mut Game, _key: Key) {
    }

    fn on_mouse_scroll(&mut self, _g: &mut Game, _delta: Vec2<i32>) {
    }

    fn on_mouse_motion(&mut self, _g: &mut Game, _pos: Vec2<i32>) {
    }

    fn on_mouse_button(&mut self, _g: &mut Game, _btn: MouseButton) {
    }

    fn on_mouse_enter(&mut self, _g: &mut Game) {
    }

    fn on_mouse_leave(&mut self, _g: &mut Game) {
    }

    fn on_canvas_resized(&mut self, g: &mut Game, size: Extent2<u32>, _by_user: bool) {
        g.canvas_size = size;
    }

    fn on_message(&mut self, _g: &mut Game, _msg: &Message) {
    }
}

/// The game state once key `key` is reported to the input system.
pub open spec fn after_key(g: GameView, key: Key) -> GameView {
    match key.code {
        None => g,
        Some(code) => {
            let g1 = GameView { input: InputView { keys: g.input.keys.insert(code, key.state), ..g.input }, ..g };
            let down = key.state == crate::key_state::KeyState::Down;
            if code == KEYCODE_F8 && down {
                match g1.game_mode {
                    GameMode::Editor => GameView {
                        game_mode: GameMode::Gameplay,
                        messages: g1.messages.push(Message::LeaveEditor).push(Message::EnterGameplay),
                        ..g1
                    },
                    GameMode::Gameplay => GameView {
                        game_mode: GameMode::Editor,
                        messages: g1.messages.push(Message::LeaveGameplay).push(Message::EnterEditor),
                        ..g1
                    },
                }
            } else if code == KEYCODE_F6 && down {
                GameView {
                    shape_stroke: ShapeStrokeFlags {
                        do_draw_shape_stroke_lines: !g1.shape_stroke.do_draw_shape_stroke_lines,
                        ..g1.shape_stroke
                    },
                    ..g1
                }
            } else if code == KEYCODE_F7 && down {
                GameView {
                    shape_stroke: ShapeStrokeFlags {
                        do_draw_shape_stroke_points: !g1.shape_stroke.do_draw_shape_stroke_points,
                        ..g1.shape_stroke
                    },
                    ..g1
                }
            } else {
                g1
            }
        },
    }
}

/// The system that records input, and switches between editing and playing.
#[derive(Debug, Copy, Clone, PartialEq, Eq, Structural)]
pub struct InputSystem;

impl System for InputSystem {
    open spec fn after_call(self, g: GameView, call: SystemCall) -> (InputSystem, GameView) {
        match call {
            SystemCall::MouseButton(btn) => (self, GameView {
                input: InputView {
                    mouse_buttons: g.input.mouse_buttons.insert(
                        crate::engine_input::spec_button_code(btn.button),
                        btn.state,
                    ),
                    ..g.input
                },
                ..g
            }),
            SystemCall::MouseLeave => (self, GameView {
                input: InputView { mouse_position: None, ..g.input },
                ..g
            }),
            SystemCall::MouseMotion(pos) => (self, GameView {
                input: InputView {
                    previous_mouse_position: g.input.mouse_position,
                    mouse_position: Some(pos),
                    ..g.input
                },
                ..g
            }),
            SystemCall::Key(key) => (self, after_key(g, key)),
            _ => (self, g),
        }
    }

    fn name(&self) -> (r: &str)
        ensures
            r@ == "InputSystem"@,
    {
        "InputSystem"
    }

    fn on_quit_requested(&mut self, _g: &mut Game) {
    }

    fn on_text_input(&mut self, _g: &mut Game, _text: &str) {
    }

    fn on_key(&mut self, g: &mut Game, key: Key) {
        if key.code.is_none() {
            return;
        }
        let keycode = key.code.unwrap();
        g.input.set_key(keycode, key.state);
        if keycode == KEYCODE_F8 {
            if key.is_down() {
                match g.game_mode {
                    GameMode::Editor => {
                        g.send(Message::LeaveEditor);
                        g.send(Message::EnterGameplay);
                        g.game_mode = GameMode::Gameplay;
                    },
                    GameMode::Gameplay => {
                        g.send(Message::LeaveGameplay);
                        g.send(Message::EnterEditor);
                        g.game_mode = GameMode::Editor;
                    },
                }
            }
        } else if keycode == KEYCODE_F6 {
            if key.is_down() {
                g.shape_stroke.do_draw_shape_stroke_lines = !g.shape_stroke.do_draw_shape_stroke_lines;
            }
        } else if keycode == KEYCODE_F7 {
            if key.is_down() {
                g.shape_stroke.do_draw_shape_stroke_points = !g.shape_stroke.do_draw_shape_stroke_points;
            }
        }
    }

    fn on_mouse_scroll(&mut self, _g: &mut Game, _delta: Vec2<i32>) {
    }

    fn on_mouse_motion(&mut self, g: &mut Game, pos: Vec2<i32>) {
        g.input.set_mouse_position(pos);
    }

    fn on_mouse_button(&mut self, g: &mut Game, btn: MouseButton) {
        g.input.set_mouse_button(btn.button, btn.state);
    }

    fn on_mouse_enter(&mut self, _g: &mut Game) {
    }

    fn on_mouse_leave(&mut self, g: &mut Game) {
        g.input.clear_mouse_position();
    }

    fn on_canvas_resized(&mut self, _g: &mut Game, _size: Extent2<u32>, _by_user: bool) {
    }

    fn on_message(&mut self, _g: &mut Game, _msg: &Message) {
    }
}

} // verus!
