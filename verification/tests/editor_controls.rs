use grisui::color::Hsva;
use grisui::editor_command::{has_command_components, has_command_word, EditorCommand};
use grisui::editor_controls::{EditorAction, EditorControls};
use grisui::engine_input::{Key, MouseButton};
use grisui::key_state::KeyState;
use grisui::platform_event::{self, Sdl2MouseButton};

fn key(code: i32, state: KeyState) -> Key {
    Key { code: Some(code), scancode: None, state }
}

fn active() -> EditorControls {
    let mut e = EditorControls::new();
    e.enter();
    e
}

#[test]
fn editor_starts_inactive() {
    let mut e = EditorControls::new();
    assert!(!e.is_active && e.do_draw_grid && e.draw_grid_first);
    assert_eq!(e.working_shape_name, "default");
    let before = e.clone();
    assert_eq!(e.on_key(key(platform_event::KEYCODE_G, KeyState::Down)), EditorAction::Nothing);
    e.on_text_input("x");
    assert_eq!(e, before);
}

#[test]
fn editor_toggles_and_held_keys() {
    let mut e = active();
    e.on_key(key(platform_event::KEYCODE_G, KeyState::Down));
    assert!(!e.do_draw_grid);
    e.on_key(key(platform_event::KEYCODE_G, KeyState::Up));
    assert!(!e.do_draw_grid);
    e.on_key(key(platform_event::KEYCODE_SPACE, KeyState::Down));
    assert!(e.is_panning_camera);
    e.on_key(key(platform_event::KEYCODE_R, KeyState::Down));
    assert_eq!(e.camera_rotation, -1);
    e.on_key(key(platform_event::KEYCODE_R, KeyState::Up));
    assert_eq!(e.camera_rotation, 0);
    e.on_key(key(platform_event::KEYCODE_I, KeyState::Down));
    e.on_key(key(platform_event::KEYCODE_K, KeyState::Down));
    assert_eq!(e.hsva_sliding_speed, Hsva { h: 6, s: 0, v: -1, a: 0 });
    assert_eq!(e.on_key(key(platform_event::KEYCODE_X, KeyState::Down)), EditorAction::DeleteSelected);
    assert_eq!(e.on_key(key(platform_event::KEYCODE_RETURN, KeyState::Down)), EditorAction::EndPolygon);
    assert_eq!(e.on_key(key(platform_event::KEYCODE_C, KeyState::Up)), EditorAction::Nothing);
}

#[test]
fn editor_command_typing_and_running() {
    let mut e = active();
    e.on_key(key(platform_event::KEYCODE_COLON, KeyState::Down));
    assert!(e.command_line.is_entering_command);
    e.on_text_input(":w star");
    assert_eq!(e.on_key(key(platform_event::KEYCODE_TAB, KeyState::Down)), EditorAction::Autocomplete);
    // Keys that edit shapes do nothing while a command is typed.
    assert_eq!(e.on_key(key(platform_event::KEYCODE_X, KeyState::Down)), EditorAction::Nothing);
    let action = e.on_key(key(platform_event::KEYCODE_KP_ENTER, KeyState::Down));
    assert_eq!(action, EditorAction::ExecuteCommand(":w star".to_string()));
    assert!(!e.command_line.is_entering_command);
    assert_eq!(e.command_line.text, "");
    assert_eq!(e.execute_command(":w star"), EditorCommand::Write { name: Some("star".to_string()) });
    assert_eq!(e.working_shape_name, "star");
    assert_eq!(e.execute_command(":w"), EditorCommand::Write { name: Some("star".to_string()) });
    assert_eq!(e.execute_command(":e"), EditorCommand::Edit { name: None });
    assert_eq!(e.working_shape_name, "star");
    assert_eq!(e.execute_command(":e box"), EditorCommand::Edit { name: Some("box".to_string()) });
    assert_eq!(e.working_shape_name, "box");
    assert_eq!(e.execute_command(":zz"), EditorCommand::Unrecognized { command: "zz".to_string() });
}

#[test]
fn editor_escape_drops_command() {
    let mut e = active();
    e.on_key(key(platform_event::KEYCODE_COLON, KeyState::Down));
    e.on_text_input(":e a");
    e.on_key(key(platform_event::KEYCODE_BACKSPACE, KeyState::Down));
    assert_eq!(e.command_line.text, ":e ");
    assert_eq!(e.on_key(key(platform_event::KEYCODE_ESCAPE, KeyState::Down)), EditorAction::Nothing);
    assert!(!e.command_line.is_entering_command);
    assert_eq!(e.command_line.text, "");
}

#[test]
fn editor_left_click_adds_vertex() {
    let e = active();
    let down = MouseButton { button: Sdl2MouseButton::Left, state: KeyState::Down };
    let right = MouseButton { button: Sdl2MouseButton::Right, state: KeyState::Down };
    assert_eq!(e.on_mouse_button(down), EditorAction::AddVertex);
    assert_eq!(e.on_mouse_button(right), EditorAction::Nothing);
    assert_eq!(EditorControls::new().on_mouse_button(down), EditorAction::Nothing);
}

#[test]
fn command_checks() {
    assert!(has_command_components(""));
    assert!(!has_command_components(":"));
    assert!(has_command_components("::"));
    assert!(!has_command_word(""));
    assert!(!has_command_word(":"));
    assert!(!has_command_word(":  \nw"));
    assert!(has_command_word(":w"));
}

#[test]
fn editor_key_release_asks_nothing() {
    let codes = [
        platform_event::KEYCODE_C, platform_event::KEYCODE_RETURN, platform_event::KEYCODE_A,
        platform_event::KEYCODE_X, platform_event::KEYCODE_DELETE, platform_event::KEYCODE_BACKSPACE,
        platform_event::KEYCODE_TAB, platform_event::KEYCODE_ESCAPE, platform_event::KEYCODE_KP_ENTER,
    ];
    for entering in [false, true] {
        let mut e = active();
        e.command_line.is_entering_command = entering;
        for c in codes {
            assert_eq!(e.on_key(key(c, KeyState::Up)), EditorAction::Nothing);
        }
    }
}
