use grisui::input::{ButtonInput, Input, KeyboardInput, MouseInput};
use grisui::global::Global;
use grisui::platform_event::{Event, MouseWheelDirection, Sdl2MouseButton, WindowEvent};
use grisui::v::{Extent2, Vec2};

fn idle() -> ButtonInput {
    ButtonInput::default()
}

#[test]
fn button_press_counts_one_change() {
    let mut b = idle();
    b.press();
    assert!(b.is_pressed);
    assert_eq!(b.num_changes_since_last_tick_and_event_processing, 1);
    assert!(b.was_just_pressed());
    assert!(!b.was_just_released());
}

#[test]
fn button_press_twice_is_idempotent() {
    let mut b = idle();
    b.press();
    let once = b;
    b.press();
    assert_eq!(b, once);
}

#[test]
fn button_release_of_released_does_nothing() {
    let mut b = idle();
    b.release();
    assert_eq!(b, idle());
}

#[test]
fn button_begin_tick_is_quiet() {
    let mut b = idle();
    b.press();
    b.begin_tick_and_event_processing();
    assert!(b.is_pressed);
    assert!(b.was_pressed);
    assert_eq!(b.num_changes_since_last_tick_and_event_processing, 0);
    assert!(!b.was_just_pressed());
    assert!(!b.was_just_released());
}

#[test]
fn button_tap_within_tick_is_both_pressed_and_released() {
    let mut b = idle();
    b.begin_tick_and_event_processing();
    b.press();
    b.release();
    assert!(!b.is_pressed);
    assert!(b.was_just_pressed());
    assert!(b.was_just_released());
}

#[test]
fn button_release_after_tick_is_just_released() {
    let mut b = idle();
    b.press();
    b.begin_tick_and_event_processing();
    b.release();
    assert!(b.was_just_released());
    assert!(!b.was_just_pressed());
}

#[test]
fn mouse_set_position_without_previous_sets_both() {
    let mut m = MouseInput::default();
    m.set_position(Vec2::new(10, 20));
    assert_eq!(m.position, Vec2::new(10, 20));
    assert_eq!(m.prev_position, Vec2::new(10, 20));
}

#[test]
fn mouse_set_position_with_previous_keeps_previous() {
    let mut m = MouseInput::default();
    m.has_prev_position = true;
    m.prev_position = Vec2::new(1, 2);
    m.set_position(Vec2::new(10, 20));
    assert_eq!(m.prev_position, Vec2::new(1, 2));
    assert_eq!(m.displacement(), Vec2::new(9, 18));
}

#[test]
fn mouse_displacement_without_previous_is_zero() {
    let mut m = MouseInput::default();
    m.position = Vec2::new(5, 5);
    assert_eq!(m.displacement(), Vec2::new(0, 0));
}

#[test]
fn mouse_begin_tick_resets_scroll_and_moves_previous() {
    let mut m = MouseInput::default();
    m.scroll = Vec2::new(3, -4);
    m.position = Vec2::new(7, 8);
    m.left.press();
    m.begin_tick_and_event_processing();
    assert_eq!(m.scroll, Vec2::new(0, 0));
    assert_eq!(m.prev_position, Vec2::new(7, 8));
    assert!(m.left.was_pressed);
    assert_eq!(m.left.num_changes_since_last_tick_and_event_processing, 0);
}

#[test]
fn keyboard_key_records_unseen_key() {
    let mut k = KeyboardInput::default();
    assert!(k.keys.is_empty());
    let b = k.key(42);
    assert_eq!(*b, ButtonInput::default());
    b.press();
    assert!(k.keys[&42].is_pressed);
    assert_eq!(k.keys.len(), 1);
}

#[test]
fn keyboard_begin_tick_applies_to_every_key() {
    let mut k = KeyboardInput::default();
    k.key(1).press();
    k.key(2).press();
    k.key(2).release();
    k.begin_tick_and_event_processing();
    assert!(k.keys[&1].is_pressed && k.keys[&1].was_pressed);
    assert!(!k.keys[&2].is_pressed && !k.keys[&2].was_pressed);
    assert_eq!(k.keys[&1].num_changes_since_last_tick_and_event_processing, 0);
    assert_eq!(k.keys[&2].num_changes_since_last_tick_and_event_processing, 0);
}

#[test]
fn input_quit_event_sets_wants_to_quit() {
    let mut i = Input::default();
    assert!(!i.wants_to_quit);
    i.handle_sdl2_event_before_new_tick(&Event::Quit);
    assert!(i.wants_to_quit);
}

#[test]
fn input_text_events_accumulate_and_tick_clears() {
    let mut i = Input::default();
    i.handle_sdl2_event_before_new_tick(&Event::TextInput { text: "ab".to_string() });
    i.handle_sdl2_event_before_new_tick(&Event::TextInput { text: "cé".to_string() });
    assert_eq!(i.text, "abcé");
    i.begin_tick_and_event_processing();
    assert_eq!(i.text, "");
}

#[test]
fn input_key_down_and_up() {
    let mut i = Input::default();
    i.handle_sdl2_event_before_new_tick(&Event::KeyDown { keycode: Some(97), scancode: Some(4), repeat: false });
    assert!(i.keyboard.keys[&97].is_pressed);
    assert!(i.keyboard.keys[&97].was_just_pressed());
    i.handle_sdl2_event_before_new_tick(&Event::KeyUp { keycode: Some(97), scancode: Some(4) });
    assert!(!i.keyboard.keys[&97].is_pressed);
    assert_eq!(i.keyboard.keys[&97].num_changes_since_last_tick_and_event_processing, 2);
}

#[test]
fn input_repeated_key_down_and_missing_keycode_are_ignored() {
    let mut i = Input::default();
    i.handle_sdl2_event_before_new_tick(&Event::KeyDown { keycode: Some(97), scancode: None, repeat: true });
    i.handle_sdl2_event_before_new_tick(&Event::KeyDown { keycode: None, scancode: None, repeat: false });
    i.handle_sdl2_event_before_new_tick(&Event::KeyUp { keycode: None, scancode: None });
    assert!(i.keyboard.keys.is_empty());
}

#[test]
fn input_wheel_adds_scroll_and_flipped_negates() {
    let mut i = Input::default();
    i.handle_sdl2_event_before_new_tick(&Event::MouseWheel { x: 1, y: 2, direction: MouseWheelDirection::Normal });
    i.handle_sdl2_event_before_new_tick(&Event::MouseWheel { x: 5, y: 1, direction: MouseWheelDirection::Flipped });
    assert_eq!(i.mouse.scroll, Vec2::new(-4, 1));
}

#[test]
fn input_mouse_buttons_and_motion() {
    let mut i = Input::default();
    i.handle_sdl2_event_before_new_tick(&Event::MouseButtonDown { mouse_btn: Sdl2MouseButton::Right, x: 3, y: 4 });
    assert!(i.mouse.right.is_pressed);
    assert!(!i.mouse.left.is_pressed);
    assert_eq!(i.mouse.position, Vec2::new(3, 4));
    i.handle_sdl2_event_before_new_tick(&Event::MouseMotion { x: 30, y: 40 });
    assert_eq!(i.mouse.position, Vec2::new(30, 40));
    i.handle_sdl2_event_before_new_tick(&Event::MouseButtonUp { mouse_btn: Sdl2MouseButton::Right, x: 31, y: 41 });
    assert!(!i.mouse.right.is_pressed);
    assert!(i.mouse.right.was_just_released());
    i.handle_sdl2_event_before_new_tick(&Event::MouseButtonDown { mouse_btn: Sdl2MouseButton::X1, x: 0, y: 0 });
    assert_eq!(i.mouse.left, ButtonInput::default());
    assert_eq!(i.mouse.middle, ButtonInput::default());
}

#[test]
fn input_negative_pointer_position_wraps() {
    let mut i = Input::default();
    i.handle_sdl2_event_before_new_tick(&Event::MouseMotion { x: -1, y: 2 });
    assert_eq!(i.mouse.position, Vec2::new(u32::MAX, 2));
}

#[test]
fn global_resize_events_reshape() {
    let mut g = Global::new(Extent2::new(800, 480));
    g.handle_sdl2_event_before_new_tick(&Event::Window { win_event: WindowEvent::Resized(640, 360) });
    assert_eq!(g.window_size, Extent2::new(640, 360));
    g.handle_sdl2_event_before_new_tick(&Event::Window { win_event: WindowEvent::SizeChanged(100, 50) });
    assert_eq!(g.window_size, Extent2::new(100, 50));
    g.handle_sdl2_event_before_new_tick(&Event::Window { win_event: WindowEvent::Enter });
    assert_eq!(g.window_size, Extent2::new(100, 50));
}

#[test]
fn global_tick_begins_input_tick() {
    let mut g = Global::new(Extent2::new(1, 1));
    g.handle_sdl2_event_before_new_tick(&Event::TextInput { text: "x".to_string() });
    g.handle_sdl2_event_before_new_tick(&Event::Quit);
    g.replace_previous_state_by_current();
    assert_eq!(g.input.text, "");
    assert!(g.input.wants_to_quit);
    g.reshape(Extent2::new(2, 3));
    assert_eq!(g.window_size, Extent2::new(2, 3));
}
