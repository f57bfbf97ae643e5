use grisui::gx::parse_version_string;
use grisui::save::Save;

#[test]
fn parse_version_string_reads_major_minor() {
    assert_eq!(parse_version_string("4.5.0 NVIDIA 390.87"), (4, 5));
    assert_eq!(parse_version_string("3.3"), (3, 3));
}

#[test]
fn save_default_is_first_scene_locked() {
    let s = Save::default();
    assert_eq!(s.scene_id.get_raw(), 0);
    assert!(!s.has_unlocked_door);
}
