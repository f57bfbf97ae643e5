use grisui::engine_input::{Key, MouseButton};
use grisui::game::{Game, InputSystem, PlatformSystem, QuitSystem, ShapeStrokeFlags};
use grisui::key_state::KeyState;
use grisui::message::{GameMode, Message};
use grisui::platform_event::{Event, MouseWheelDirection, Sdl2MouseButton, WindowEvent, KEYCODE_F8};
use grisui::system::{dispatch_sdl2_event, pump_messages, system_inputs, SystemInput};
use grisui::v::{Extent2, Vec2};

fn game(mode: GameMode) -> Game {
    Game::new(
        Extent2::new(640, 480),
        mode,
        ShapeStrokeFlags { do_draw_shape_stroke_lines: true, do_draw_shape_stroke_points: true },
    )
}

#[test]
fn system_inputs_list_notifications_in_order() {
    let p = Vec2::new(3, 4);
    assert_eq!(system_inputs(&Event::Window { win_event: WindowEvent::Enter }, p),
        vec![SystemInput::MouseEnter, SystemInput::MouseMotion(p)]);
    assert_eq!(system_inputs(&Event::Window { win_event: WindowEvent::Resized(10, 20) }, p),
        vec![SystemInput::CanvasResized(Extent2::new(10, 20), true)]);
    assert_eq!(system_inputs(&Event::MouseButtonDown { mouse_btn: Sdl2MouseButton::Right, x: 1, y: 2 }, p), vec![
        SystemInput::MouseMotion(Vec2::new(1, 2)),
        SystemInput::MouseButton(MouseButton { button: Sdl2MouseButton::Right, state: KeyState::Down }),
    ]);
    assert_eq!(system_inputs(&Event::MouseWheel { x: 2, y: -3, direction: MouseWheelDirection::Flipped }, p),
        vec![SystemInput::MouseScroll(Vec2::new(-2, 3))]);
    assert_eq!(system_inputs(&Event::KeyDown { keycode: Some(5), scancode: None, repeat: true }, p), vec![]);
    assert_eq!(system_inputs(&Event::KeyUp { keycode: None, scancode: Some(9) }, p),
        vec![SystemInput::Key(Key { code: None, scancode: Some(9), state: KeyState::Up })]);
    assert_eq!(system_inputs(&Event::TextInput { text: "hé".to_string() }, p), vec![SystemInput::TextInput("hé".to_string())]);
    assert_eq!(system_inputs(&Event::Other, p), vec![]);
}

#[test]
fn pump_delivers_every_message_in_order() {
    let mut g = game(GameMode::Editor);
    let (mut i, mut pl, mut q) = (InputSystem, PlatformSystem, QuitSystem);
    let f8 = Event::KeyDown { keycode: Some(KEYCODE_F8), scancode: None, repeat: false };
    dispatch_sdl2_event(&mut i, &mut g, &f8, Vec2::new(0, 0));
    g.send(Message::EnterEditor);
    let delivered = pump_messages(&mut g, &mut i, &mut pl, &mut q);
    assert_eq!(delivered, vec![Message::LeaveEditor, Message::EnterGameplay, Message::EnterEditor]);
    assert!(g.messages.is_empty());
    assert_eq!(g.game_mode, GameMode::Gameplay);
    assert_eq!(pump_messages(&mut g, &mut i, &mut pl, &mut q), vec![]);
}

use grisui::game::GameView;
use grisui::system::{next_message, System, SystemCall};
use std::collections::VecDeque;

/// Answers `EnterEditor` with `LeaveEditor` and `LeaveEditor` with `EnterGameplay`, and
/// records what it was given.
struct Relay {
    seen: Vec<Message>,
}

impl System for Relay {
    fn after_call(self, g: GameView, _call: SystemCall) -> (Self, GameView) {
        (self, g)
    }
    fn name(&self) -> &str {
        "Relay"
    }
    fn on_quit_requested(&mut self, _g: &mut Game) {}
    fn on_text_input(&mut self, _g: &mut Game, _text: &str) {}
    fn on_key(&mut self, _g: &mut Game, _key: Key) {}
    fn on_mouse_scroll(&mut self, _g: &mut Game, _delta: Vec2<i32>) {}
    fn on_mouse_motion(&mut self, _g: &mut Game, _pos: Vec2<i32>) {}
    fn on_mouse_button(&mut self, _g: &mut Game, _btn: MouseButton) {}
    fn on_mouse_enter(&mut self, _g: &mut Game) {}
    fn on_mouse_leave(&mut self, _g: &mut Game) {}
    fn on_canvas_resized(&mut self, _g: &mut Game, _size: Extent2<u32>, _by_user: bool) {}
    fn on_message(&mut self, g: &mut Game, msg: &Message) {
        self.seen.push(*msg);
        match msg {
            Message::EnterEditor => g.send(Message::LeaveEditor),
            Message::LeaveEditor => g.send(Message::EnterGameplay),
            _ => {},
        }
    }
}

#[test]
fn pump_delivers_messages_queued_while_pumping() {
    let mut g = game(GameMode::Editor);
    g.send(Message::EnterEditor);
    g.send(Message::LeaveGameplay);
    let (mut a, mut b, mut c) = (Relay { seen: vec![] }, QuitSystem, Relay { seen: vec![] });
    let delivered = pump_messages(&mut g, &mut a, &mut b, &mut c);
    // The first batch, then what both relays queued for it, and so on.
    let expected = vec![
        Message::EnterEditor, Message::LeaveGameplay,
        Message::LeaveEditor, Message::LeaveEditor,
        Message::EnterGameplay, Message::EnterGameplay, Message::EnterGameplay, Message::EnterGameplay,
    ];
    assert_eq!(delivered, expected);
    assert_eq!(a.seen, expected);
    assert_eq!(c.seen, expected);
    assert!(g.messages.is_empty());
}

#[test]
fn next_message_takes_batch_then_queue() {
    let mut g = game(GameMode::Editor);
    let mut batch = VecDeque::new();
    assert_eq!(next_message(&mut g, &mut batch), None);
    g.send(Message::EnterEditor);
    g.send(Message::LeaveEditor);
    assert_eq!(next_message(&mut g, &mut batch), Some(Message::EnterEditor));
    assert!(g.messages.is_empty());
    g.send(Message::EnterGameplay);
    assert_eq!(next_message(&mut g, &mut batch), Some(Message::LeaveEditor));
    assert_eq!(next_message(&mut g, &mut batch), Some(Message::EnterGameplay));
    assert_eq!(next_message(&mut g, &mut batch), None);
}
