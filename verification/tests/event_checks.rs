use grisui::input::Input;
use grisui::platform_event::{is_routable, Event, MouseWheelDirection, Sdl2MouseButton};

#[test]
fn routable_unless_flipped_minimum() {
    let flipped_min = Event::MouseWheel { x: i32::MIN, y: 0, direction: MouseWheelDirection::Flipped };
    let normal_min = Event::MouseWheel { x: i32::MIN, y: 0, direction: MouseWheelDirection::Normal };
    assert!(!is_routable(&flipped_min));
    assert!(is_routable(&normal_min));
    assert!(is_routable(&Event::Quit));
}

#[test]
fn input_accepts_unless_scroll_overflows() {
    let mut input = Input::new();
    let big = Event::MouseWheel { x: i32::MAX, y: 0, direction: MouseWheelDirection::Normal };
    assert!(input.accepts_event(&big));
    input.handle_sdl2_event_before_new_tick(&big);
    assert!(!input.accepts_event(&Event::MouseWheel { x: 1, y: 0, direction: MouseWheelDirection::Normal }));
    assert!(input.accepts_event(&Event::MouseWheel { x: 1, y: 0, direction: MouseWheelDirection::Flipped }));
    assert!(!input.accepts_event(&Event::MouseWheel { x: i32::MIN, y: 0, direction: MouseWheelDirection::Flipped }));
}

#[test]
fn input_accepts_presses_until_counter_full() {
    let mut input = Input::new();
    let down = Event::MouseButtonDown { mouse_btn: Sdl2MouseButton::Left, x: 0, y: 0 };
    let up = Event::MouseButtonUp { mouse_btn: Sdl2MouseButton::Left, x: 0, y: 0 };
    for _ in 0..(u16::MAX / 2) {
        assert!(input.accepts_event(&down));
        input.handle_sdl2_event_before_new_tick(&down);
        assert!(input.accepts_event(&up));
        input.handle_sdl2_event_before_new_tick(&up);
    }
    // 65534 changes counted: one more press is allowed, then no release.
    assert!(input.accepts_event(&down));
    input.handle_sdl2_event_before_new_tick(&down);
    assert!(!input.accepts_event(&up));
    // A press while pressed changes nothing, so it is always accepted.
    assert!(input.accepts_event(&down));
    let key_down = Event::KeyDown { keycode: Some(97), scancode: None, repeat: false };
    assert!(input.accepts_event(&key_down));
}

use grisui::resources::{res_candidates, DirEntryInfo};

#[test]
fn res_candidates_are_directories_named_res() {
    let e = |name: &str, is_dir: bool| DirEntryInfo { name: name.to_string(), is_file: !is_dir, is_dir };
    let found = vec![e("res", false), e("src", true), e("res", true), e("Res", true), e("res", true)];
    assert_eq!(res_candidates(&found), vec![2, 4]);
    assert!(res_candidates(&vec![]).is_empty());
}
