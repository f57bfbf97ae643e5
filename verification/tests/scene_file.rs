use grisui::command_file::CommandError;
use grisui::scene_file::{load_scene_records, SceneLoadError, ShapeInstanceRecord};

fn words(ws: &[&str]) -> Vec<String> {
    ws.iter().map(|w| w.to_string()).collect()
}

#[test]
fn scene_file_instances_and_overrides() {
    let text = "I box box0\nP 1 2 3\nR 90\nS 2 2\nI star star0\nP 4 5 6\nP 7 8 9\n";
    let recs = load_scene_records(text).unwrap();
    assert_eq!(recs, vec![
        ShapeInstanceRecord {
            source_shape_name: "box".to_string(),
            name: "box0".to_string(),
            position: Some(words(&["1", "2", "3"])),
            rotation_degrees: Some("90".to_string()),
            scale: Some(words(&["2", "2"])),
        },
        ShapeInstanceRecord {
            source_shape_name: "star".to_string(),
            name: "star0".to_string(),
            position: Some(words(&["7", "8", "9"])),
            rotation_degrees: None,
            scale: None,
        },
    ]);
}

#[test]
fn scene_file_empty_has_no_instances() {
    assert_eq!(load_scene_records("\n").unwrap(), vec![]);
}

#[test]
fn scene_file_override_without_instance() {
    assert_eq!(load_scene_records("P 1 2 3\nI a b"), Err(SceneLoadError::NoInstance));
}

#[test]
fn scene_file_unknown_command() {
    assert_eq!(
        load_scene_records("I a b\nT 1"),
        Err(SceneLoadError::Command(CommandError::UnknownCommand("T".to_string())))
    );
}

#[test]
fn scene_file_missing_argument() {
    assert_eq!(
        load_scene_records("I a b\nS 1"),
        Err(SceneLoadError::Command(CommandError::MissingArgument("S".to_string())))
    );
}
