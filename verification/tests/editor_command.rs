use grisui::editor_command::{command_components, complete_command, parse_editor_command, CommandLine, EditorCommand};

#[test]
fn command_components_strip_colon_and_keep_first_line() {
    assert_eq!(command_components(""), Vec::<String>::new());
    assert_eq!(command_components(":w  foo\nbar baz"), vec!["w".to_string(), "foo".to_string()]);
    assert_eq!(command_components("e shapes/a"), vec!["e".to_string(), "shapes/a".to_string()]);
    assert_eq!(command_components("::x"), vec![":x".to_string()]);
}

#[test]
fn parse_write_edit_and_other() {
    assert_eq!(parse_editor_command(":w"), EditorCommand::Write { name: None });
    assert_eq!(parse_editor_command(":w star"), EditorCommand::Write { name: Some("star".to_string()) });
    assert_eq!(parse_editor_command(":e"), EditorCommand::Edit { name: None });
    assert_eq!(parse_editor_command(":e box extra"), EditorCommand::Edit { name: Some("box".to_string()) });
    assert_eq!(parse_editor_command(":q!"), EditorCommand::Unrecognized { command: "q!".to_string() });
}

#[test]
fn complete_with_one_candidate_rewrites_command() {
    let c = vec!["shapes/star.shape".to_string()];
    assert_eq!(complete_command(":e   shapes/st", &c), ":e shapes/star.shape");
    assert_eq!(complete_command(":e shapes/st\nold\nlist", &c), ":e shapes/star.shape");
}

#[test]
fn complete_with_many_candidates_lists_them() {
    let c = vec!["shapes/a".to_string(), "shapes/b/".to_string()];
    assert_eq!(complete_command(":e shapes/\nstale", &c), ":e shapes/\nshapes/a\nshapes/b/");
}

#[test]
fn complete_with_no_candidate_keeps_first_line() {
    let c: Vec<String> = vec![];
    assert_eq!(complete_command(":e zz\nstale", &c), ":e zz");
}

#[test]
fn command_line_typing_and_erasing() {
    let mut cl = CommandLine::new();
    assert!(!cl.is_entering_command);
    assert_eq!(cl.text, "");
    cl.is_entering_command = true;
    cl.type_text(":e a");
    assert_eq!(cl.text, ":e a");
    cl.text.push_str("\ncand1\ncand2");
    cl.type_text("b");
    assert_eq!(cl.text, ":e ab");
    cl.text.push_str("\ncand");
    cl.backspace();
    assert_eq!(cl.text, ":e a");
    assert!(cl.is_entering_command);
    cl.clear();
    assert!(!cl.is_entering_command);
    assert_eq!(cl.text, "");
    cl.backspace();
    assert_eq!(cl.text, "");
}
