use grisui::ecs::{Transform, Transforms, World, EID};
use grisui::events::{dispatch_sdl2_event, KeyInput, MouseButtonInput, Sdl2EventSubscriber, SubscriberCall};
use grisui::key_state::KeyState;
use grisui::platform_event::{Event, MouseWheelDirection, Sdl2MouseButton, WindowEvent};
use grisui::v::{Extent2, Vec2};

#[derive(Default)]
struct Recorder {
    calls: Vec<String>,
}

impl Sdl2EventSubscriber for Recorder {
    fn after_call(self, _call: SubscriberCall) -> Self {
        self
    }
    fn on_wants_to_quit(&mut self) {
        self.calls.push("quit".to_string());
    }
    fn on_text_input(&mut self, text: &str) {
        self.calls.push(format!("text {}", text));
    }
    fn on_key(&mut self, key: KeyInput) {
        self.calls.push(format!("key {} {:?}", key.keycode, key.state));
    }
    fn on_scroll(&mut self, delta: Vec2<i32>) {
        self.calls.push(format!("scroll {} {}", delta.x, delta.y));
    }
    fn on_mouse_motion(&mut self, pos: Vec2<i32>) {
        self.calls.push(format!("motion {} {}", pos.x, pos.y));
    }
    fn on_mouse_button(&mut self, btn: MouseButtonInput) {
        self.calls.push(format!("button {:?} {:?}", btn.button, btn.state));
    }
    fn on_window_resized(&mut self, size: Extent2<u32>) {
        self.calls.push(format!("resized {} {}", size.w, size.h));
    }
    fn on_window_size_changed(&mut self, size: Extent2<u32>) {
        self.calls.push(format!("size_changed {} {}", size.w, size.h));
    }
}

fn calls_for(e: Event) -> Vec<String> {
    let mut r = Recorder::default();
    dispatch_sdl2_event(&mut r, &e);
    r.calls
}

#[test]
fn subscriber_window_events() {
    assert_eq!(calls_for(Event::Window { win_event: WindowEvent::Resized(3, 4) }), vec!["resized 3 4"]);
    assert_eq!(calls_for(Event::Window { win_event: WindowEvent::SizeChanged(5, 6) }), vec!["size_changed 5 6"]);
    assert!(calls_for(Event::Window { win_event: WindowEvent::Enter }).is_empty());
}

#[test]
fn subscriber_quit_and_text() {
    assert_eq!(calls_for(Event::Quit), vec!["quit"]);
    assert_eq!(calls_for(Event::TextInput { text: "hé".to_string() }), vec!["text hé"]);
}

#[test]
fn subscriber_keys() {
    assert_eq!(calls_for(Event::KeyDown { keycode: Some(13), scancode: None, repeat: false }), vec!["key 13 Down"]);
    assert!(calls_for(Event::KeyDown { keycode: Some(13), scancode: None, repeat: true }).is_empty());
    assert!(calls_for(Event::KeyDown { keycode: None, scancode: Some(1), repeat: false }).is_empty());
    assert_eq!(calls_for(Event::KeyUp { keycode: Some(13), scancode: None }), vec!["key 13 Up"]);
    assert!(calls_for(Event::KeyUp { keycode: None, scancode: None }).is_empty());
}

#[test]
fn subscriber_wheel_flipped_is_negated() {
    assert_eq!(calls_for(Event::MouseWheel { x: 1, y: -2, direction: MouseWheelDirection::Normal }), vec!["scroll 1 -2"]);
    assert_eq!(calls_for(Event::MouseWheel { x: 1, y: -2, direction: MouseWheelDirection::Flipped }), vec!["scroll -1 2"]);
}

#[test]
fn subscriber_mouse_buttons_report_motion_first() {
    assert_eq!(
        calls_for(Event::MouseButtonDown { mouse_btn: Sdl2MouseButton::Left, x: 7, y: 8 }),
        vec!["motion 7 8", "button Left Down"]
    );
    assert_eq!(
        calls_for(Event::MouseButtonUp { mouse_btn: Sdl2MouseButton::Middle, x: 1, y: 2 }),
        vec!["motion 1 2", "button Middle Up"]
    );
    assert_eq!(calls_for(Event::MouseMotion { x: -5, y: 6 }), vec!["motion -5 6"]);
    assert!(calls_for(Event::Other).is_empty());
}

#[test]
fn world_allows_quitting_on_quit_only() {
    let mut w = World::default();
    w.dispatch_sdl2_event(&Event::MouseMotion { x: 1, y: 1 });
    assert!(!w.allows_quitting);
    w.dispatch_sdl2_event(&Event::Quit);
    assert!(w.allows_quitting);
    w.dispatch_sdl2_event(&Event::KeyDown { keycode: Some(1), scancode: None, repeat: false });
    assert!(w.allows_quitting);
}

#[test]
fn transforms_store_by_entity() {
    let mut t = Transforms::default();
    assert_eq!(t.len(), 0);
    assert_eq!(t.insert(EID::from_raw(4), Transform {}), None);
    assert_eq!(t.insert(EID::from_raw(4), Transform {}), Some(Transform {}));
    assert_eq!(t.get(EID::from_raw(4)), Some(&Transform {}));
    assert_eq!(t.get(EID::from_raw(5)), None);
    assert_eq!(t.len(), 1);
    let mut w = World::new();
    w.transforms = t.clone();
    w.dispatch_sdl2_event(&Event::Quit);
    assert_eq!(w.transforms, t);
}

#[test]
fn key_state_of_key_input() {
    let k = KeyInput { keycode: 1, state: KeyState::Down };
    assert!(k.state.is_down());
}
