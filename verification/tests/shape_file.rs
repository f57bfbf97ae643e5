use grisui::command_file::CommandError;
use grisui::shape_file::{load_shape_commands, ShapeCommand, ShapeCommandKind};

fn cmd(kind: ShapeCommandKind, args: &[&str]) -> ShapeCommand {
    ShapeCommand { kind, args: args.iter().map(|a| a.to_string()).collect() }
}

#[test]
fn shape_file_path_and_style() {
    let text = "M 0 0\nL 1 0\nQ 1 1 0 1\nC 0 2 1 2 1 3\nz\n\
                stroke_thickness 2\nstroke_color 1 0 0 1\nfill_color 0 1 0 1\n\
                fill_gradient_start_color 0 0 0 1\nfill_gradient_end_color 1 1 1 1\n\
                fill_gradient_start_position 0 0\nfill_gradient_end_position 1 1\nZ\n";
    let cmds = load_shape_commands(text).unwrap();
    assert_eq!(cmds, vec![
        cmd(ShapeCommandKind::MoveTo, &["0", "0"]),
        cmd(ShapeCommandKind::LineTo, &["1", "0"]),
        cmd(ShapeCommandKind::Quadratic, &["1", "1", "0", "1"]),
        cmd(ShapeCommandKind::Cubic, &["0", "2", "1", "2", "1", "3"]),
        cmd(ShapeCommandKind::Close, &[]),
        cmd(ShapeCommandKind::StrokeThickness, &["2"]),
        cmd(ShapeCommandKind::StrokeColor, &["1", "0", "0", "1"]),
        cmd(ShapeCommandKind::FillColor, &["0", "1", "0", "1"]),
        cmd(ShapeCommandKind::FillGradientStartColor, &["0", "0", "0", "1"]),
        cmd(ShapeCommandKind::FillGradientEndColor, &["1", "1", "1", "1"]),
        cmd(ShapeCommandKind::FillGradientStartPosition, &["0", "0"]),
        cmd(ShapeCommandKind::FillGradientEndPosition, &["1", "1"]),
        cmd(ShapeCommandKind::Close, &[]),
    ]);
}

#[test]
fn shape_file_empty_has_no_commands() {
    assert_eq!(load_shape_commands("").unwrap(), vec![]);
    assert_eq!(load_shape_commands(" \n\t ").unwrap(), vec![]);
}

#[test]
fn shape_file_unknown_command() {
    assert_eq!(
        load_shape_commands("M 0 0 X 1 2"),
        Err(CommandError::UnknownCommand("X".to_string()))
    );
}

#[test]
fn shape_file_missing_argument() {
    assert_eq!(
        load_shape_commands("M 0 0\nC 1 2 3"),
        Err(CommandError::MissingArgument("C".to_string()))
    );
}

#[test]
fn shape_file_first_error_wins() {
    // The unknown word comes before the command that lacks arguments.
    assert_eq!(
        load_shape_commands("bogus L 1"),
        Err(CommandError::UnknownCommand("bogus".to_string()))
    );
}
