use grisui::engine_input::{Input, Key, MouseButton};
use grisui::esystem::{self, ESystem, ESystemCall};
use grisui::game::{Game, GameView, InputSystem, PlatformSystem, QuitSystem, ShapeStrokeFlags};
use grisui::key_state::KeyState;
use grisui::message::{GameMode, Message};
use grisui::platform_event::{Event, Keycode, MouseWheelDirection, Sdl2MouseButton, WindowEvent, KEYCODE_F6, KEYCODE_F7, KEYCODE_F8};
use grisui::system::{dispatch_message, dispatch_sdl2_event, System};
use grisui::v::{Extent2, Vec2};

fn new_game() -> Game {
    Game::new(
        Extent2::new(800, 600),
        GameMode::Editor,
        ShapeStrokeFlags { do_draw_shape_stroke_lines: false, do_draw_shape_stroke_points: true },
    )
}

fn key(code: Option<Keycode>, state: KeyState) -> Key {
    Key { code, scancode: None, state }
}

#[test]
fn key_and_mouse_button_predicates() {
    assert!(key(Some(1), KeyState::Down).is_down());
    assert!(key(Some(1), KeyState::Up).is_up());
    let b = MouseButton { button: Sdl2MouseButton::Middle, state: KeyState::Up };
    assert!(b.is_up() && !b.is_down());
    assert!(b.is_middle() && !b.is_left() && !b.is_right());
    assert!(MouseButton { button: Sdl2MouseButton::Left, state: KeyState::Down }.is_left());
    assert!(MouseButton { button: Sdl2MouseButton::Right, state: KeyState::Down }.is_right());
}

#[test]
fn input_defaults_to_up_and_no_pointer() {
    let i = Input::default();
    assert_eq!(i.key(5), KeyState::Up);
    assert_eq!(i.mouse_button(MouseButton { button: Sdl2MouseButton::Left, state: KeyState::Down }), KeyState::Up);
    assert_eq!(i.mouse_position(), None);
    assert_eq!(i.previous_mouse_position(), None);
}

#[test]
fn input_system_records_keys_and_buttons() {
    let mut g = new_game();
    let mut s = InputSystem;
    s.on_key(&mut g, key(Some(65), KeyState::Down));
    assert_eq!(g.input.key(65), KeyState::Down);
    s.on_key(&mut g, key(Some(65), KeyState::Up));
    assert_eq!(g.input.key(65), KeyState::Up);
    s.on_key(&mut g, key(None, KeyState::Down));
    s.on_mouse_button(&mut g, MouseButton { button: Sdl2MouseButton::Right, state: KeyState::Down });
    let probe = MouseButton { button: Sdl2MouseButton::Right, state: KeyState::Up };
    assert_eq!(g.input.mouse_button(probe), KeyState::Down);
}

#[test]
fn input_system_tracks_pointer() {
    let mut g = new_game();
    let mut s = InputSystem;
    s.on_mouse_motion(&mut g, Vec2::new(1, 2));
    s.on_mouse_motion(&mut g, Vec2::new(3, 4));
    assert_eq!(g.input.mouse_position(), Some(Vec2::new(3, 4)));
    assert_eq!(g.input.previous_mouse_position(), Some(Vec2::new(1, 2)));
    s.on_mouse_leave(&mut g);
    assert_eq!(g.input.mouse_position(), None);
    assert_eq!(g.input.previous_mouse_position(), Some(Vec2::new(1, 2)));
}

#[test]
fn f8_switches_mode_and_sends_messages() {
    let mut g = new_game();
    let mut s = InputSystem;
    s.on_key(&mut g, key(Some(KEYCODE_F8), KeyState::Down));
    assert_eq!(g.game_mode, GameMode::Gameplay);
    assert_eq!(g.messages.iter().copied().collect::<Vec<_>>(), vec![Message::LeaveEditor, Message::EnterGameplay]);
    s.on_key(&mut g, key(Some(KEYCODE_F8), KeyState::Up));
    assert_eq!(g.game_mode, GameMode::Gameplay);
    s.on_key(&mut g, key(Some(KEYCODE_F8), KeyState::Down));
    assert_eq!(g.game_mode, GameMode::Editor);
    assert_eq!(
        g.messages.iter().copied().collect::<Vec<_>>(),
        vec![Message::LeaveEditor, Message::EnterGameplay, Message::LeaveGameplay, Message::EnterEditor]
    );
}

#[test]
fn f6_f7_toggle_stroke_flags_on_press_only() {
    let mut g = new_game();
    let mut s = InputSystem;
    s.on_key(&mut g, key(Some(KEYCODE_F6), KeyState::Down));
    s.on_key(&mut g, key(Some(KEYCODE_F6), KeyState::Up));
    assert!(g.shape_stroke.do_draw_shape_stroke_lines);
    s.on_key(&mut g, key(Some(KEYCODE_F7), KeyState::Down));
    assert!(!g.shape_stroke.do_draw_shape_stroke_points);
}

#[test]
fn quit_and_platform_systems() {
    let mut g = new_game();
    assert!(!g.should_quit());
    dispatch_sdl2_event(&mut PlatformSystem, &mut g, &Event::Quit, Vec2::new(0, 0));
    assert!(!g.should_quit());
    dispatch_sdl2_event(&mut QuitSystem, &mut g, &Event::Quit, Vec2::new(0, 0));
    assert!(g.should_quit());
    dispatch_sdl2_event(&mut PlatformSystem, &mut g, &Event::Window { win_event: WindowEvent::Resized(10, 20) }, Vec2::new(0, 0));
    assert_eq!(g.canvas_size, Extent2::new(10, 20));
    dispatch_sdl2_event(&mut PlatformSystem, &mut g, &Event::Window { win_event: WindowEvent::SizeChanged(11, 21) }, Vec2::new(0, 0));
    assert_eq!(g.canvas_size, Extent2::new(11, 21));
}

#[test]
fn window_enter_reports_pointer_and_leave_forgets_it() {
    let mut g = new_game();
    dispatch_sdl2_event(&mut InputSystem, &mut g, &Event::Window { win_event: WindowEvent::Enter }, Vec2::new(9, 9));
    assert_eq!(g.input.mouse_position(), Some(Vec2::new(9, 9)));
    dispatch_sdl2_event(&mut InputSystem, &mut g, &Event::Window { win_event: WindowEvent::Leave }, Vec2::new(0, 0));
    assert_eq!(g.input.mouse_position(), None);
}

#[test]
fn dispatch_key_and_button_events_to_input_system() {
    let mut g = new_game();
    dispatch_sdl2_event(&mut InputSystem, &mut g, &Event::KeyDown { keycode: Some(3), scancode: None, repeat: false }, Vec2::new(0, 0));
    assert_eq!(g.input.key(3), KeyState::Down);
    dispatch_sdl2_event(&mut InputSystem, &mut g, &Event::KeyUp { keycode: Some(3), scancode: None }, Vec2::new(0, 0));
    assert_eq!(g.input.key(3), KeyState::Up);
    dispatch_sdl2_event(&mut InputSystem, &mut g, &Event::MouseButtonDown { mouse_btn: Sdl2MouseButton::Left, x: 4, y: 5 }, Vec2::new(0, 0));
    assert_eq!(g.input.mouse_position(), Some(Vec2::new(4, 5)));
    assert_eq!(g.input.mouse_button(MouseButton { button: Sdl2MouseButton::Left, state: KeyState::Up }), KeyState::Down);
}

#[test]
fn message_delivery_and_send() {
    let mut g = new_game();
    g.send(Message::EnterEditor);
    dispatch_message(&mut QuitSystem, &mut g, &Message::EnterEditor);
    assert_eq!(g.messages.len(), 1);
    assert!(!g.should_quit());
}

#[derive(Default)]
struct Log {
    calls: Vec<String>,
}

impl ESystem for Log {
    fn after_call(self, _call: ESystemCall) -> Self {
        self
    }
    fn on_quit_requested(&mut self) {
        self.calls.push("quit".to_string());
    }
    fn on_text_input(&mut self, text: &str) {
        self.calls.push(format!("text {}", text));
    }
    fn on_key(&mut self, keycode: Keycode, state: KeyState) {
        self.calls.push(format!("key {} {:?}", keycode, state));
    }
    fn on_mouse_wheel(&mut self, delta: Vec2<i32>) {
        self.calls.push(format!("wheel {} {}", delta.x, delta.y));
    }
    fn on_mouse_motion(&mut self, pos: Vec2<i32>) {
        self.calls.push(format!("motion {} {}", pos.x, pos.y));
    }
    fn on_mouse_button(&mut self, btn: Sdl2MouseButton, state: KeyState) {
        self.calls.push(format!("button {:?} {:?}", btn, state));
    }
    fn on_canvas_resized(&mut self, size: Extent2<u32>, by_user: bool) {
        self.calls.push(format!("resized {} {} {}", size.w, size.h, by_user));
    }
}

fn esystem_calls(e: Event) -> Vec<String> {
    let mut l = Log::default();
    esystem::dispatch_sdl2_event(&mut l, &e);
    l.calls
}

#[test]
fn esystem_routing() {
    assert_eq!(esystem_calls(Event::Window { win_event: WindowEvent::Resized(1, 2) }), vec!["resized 1 2 true"]);
    assert_eq!(esystem_calls(Event::Window { win_event: WindowEvent::SizeChanged(1, 2) }), vec!["resized 1 2 false"]);
    assert!(esystem_calls(Event::Window { win_event: WindowEvent::Leave }).is_empty());
    assert_eq!(esystem_calls(Event::Quit), vec!["quit"]);
    assert_eq!(esystem_calls(Event::TextInput { text: "q".to_string() }), vec!["text q"]);
    assert_eq!(esystem_calls(Event::KeyDown { keycode: Some(9), scancode: None, repeat: false }), vec!["key 9 Down"]);
    assert!(esystem_calls(Event::KeyDown { keycode: Some(9), scancode: None, repeat: true }).is_empty());
    assert_eq!(esystem_calls(Event::KeyUp { keycode: Some(9), scancode: None }), vec!["key 9 Up"]);
    assert_eq!(esystem_calls(Event::MouseWheel { x: 2, y: 3, direction: MouseWheelDirection::Flipped }), vec!["wheel -2 -3"]);
    assert_eq!(esystem_calls(Event::MouseWheel { x: 2, y: 3, direction: MouseWheelDirection::Unknown }), vec!["wheel 2 3"]);
    assert_eq!(
        esystem_calls(Event::MouseButtonDown { mouse_btn: Sdl2MouseButton::X2, x: 1, y: 1 }),
        vec!["motion 1 1", "button X2 Down"]
    );
}

struct Probe;

impl System for Probe {
    fn after_call(self, g: GameView, _call: grisui::system::SystemCall) -> (Self, GameView) {
        (self, g)
    }
    fn name(&self) -> &str {
        "Probe"
    }
    fn on_quit_requested(&mut self, g: &mut Game) {
        g.send(Message::EnterEditor);
    }
    fn on_text_input(&mut self, _g: &mut Game, _text: &str) {}
    fn on_key(&mut self, _g: &mut Game, _key: Key) {}
    fn on_mouse_scroll(&mut self, g: &mut Game, delta: Vec2<i32>) {
        g.canvas_size = Extent2::new(delta.x as u32, delta.y as u32);
    }
    fn on_mouse_motion(&mut self, _g: &mut Game, _pos: Vec2<i32>) {}
    fn on_mouse_button(&mut self, _g: &mut Game, _btn: MouseButton) {}
    fn on_mouse_enter(&mut self, _g: &mut Game) {}
    fn on_mouse_leave(&mut self, _g: &mut Game) {}
    fn on_canvas_resized(&mut self, _g: &mut Game, _size: Extent2<u32>, _by_user: bool) {}
    fn on_message(&mut self, g: &mut Game, _msg: &Message) {
        g.wants_to_quit = true;
    }
}

#[test]
fn system_scroll_sign_and_message_routing() {
    let mut g = new_game();
    let mut p = Probe;
    assert_eq!(p.name(), "Probe");
    dispatch_sdl2_event(&mut p, &mut g, &Event::MouseWheel { x: -3, y: -4, direction: MouseWheelDirection::Flipped }, Vec2::new(0, 0));
    assert_eq!(g.canvas_size, Extent2::new(3, 4));
    dispatch_message(&mut p, &mut g, &Message::LeaveEditor);
    assert!(g.should_quit());
}
