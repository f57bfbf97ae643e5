//! The text format of shapes: a path (move, line, quadratic and cubic curve, close)
//! and a style, one command per keyword. The numbers stay words here; the
//! application converts them.
use vstd::prelude::*;
use vstd::std_specs::iter::IteratorSpec;
use crate::command_file::{Command, CommandError, CommandErrorView, Syntax, parse_commands, command_view};
use crate::words::{split_whitespace, views, words};

verus! {

/// What a command of a shape file does.
#[derive(Debug, Copy, Clone, PartialEq, Eq, Structural)]
pub enum ShapeCommandKind {
    /// `M x y`: the start of the path.
    MoveTo,
    /// `L x y`: a line to the point.
    LineTo,
    /// `Q cx cy x y`: a quadratic curve to the point.
    Quadratic,
    /// `C c0x c0y c1x c1y x y`: a cubic curve to the point.
    Cubic,
    /// `Z` or `z`: the path is closed.
    Close,
    /// `stroke_thickness t`.
    StrokeThickness,
    /// `stroke_color r g b a`.
    StrokeColor,
    /// `fill_color r g b a`.
    FillColor,
    /// `fill_gradient_start_color r g b a`.
    FillGradientStartColor,
    /// `fill_gradient_end_color r g b a`.
    FillGradientEndColor,
    /// `fill_gradient_start_position x y`.
    FillGradientStartPosition,
    /// `fill_gradient_end_position x y`.
    FillGradientEndPosition,
}

/// A command of a shape file, with its argument words.
#[derive(Debug, Clone, PartialEq, Eq)]
pub struct ShapeCommand {
    pub kind: ShapeCommandKind,
    pub args: Vec<String>,
}

/// The keywords of shape files, in the order `shape_syntax` lists them.
pub open spec fn shape_keywords() -> Seq<Seq<char>> {
    seq![
        "M"@, "L"@, "Q"@, "C"@, "Z"@, "z"@, "stroke_thickness"@, "stroke_color"@, "fill_color"@,
        "fill_gradient_start_color"@, "fill_gradient_end_color"@, "fill_gradient_start_position"@,
        "fill_gradient_end_position"@,
    ]
}

/// How many numbers follow each keyword of `shape_keywords`.
pub open spec fn shape_arities() -> Seq<usize> {
    seq![2usize, 2, 4, 6, 0, 0, 1, 4, 4, 4, 4, 2, 2]
}

/// What the keyword at position `k` of `shape_keywords` does.
pub open spec fn shape_kind(k: int) -> ShapeCommandKind {
    if k == 0 {
        ShapeCommandKind::MoveTo
    } else if k == 1 {
        ShapeCommandKind::LineTo
    } else if k == 2 {
        ShapeCommandKind::Quadratic
    } else if k == 3 {
        ShapeCommandKind::Cubic
    } else if k == 4 || k == 5 {
        ShapeCommandKind::Close
    } else if k == 6 {
        ShapeCommandKind::StrokeThickness
    } else if k == 7 {
        ShapeCommandKind::StrokeColor
    } else if k == 8 {
        ShapeCommandKind::FillColor
    } else if k == 9 {
        ShapeCommandKind::FillGradientStartColor
    } else if k == 10 {
        ShapeCommandKind::FillGradientEndColor
    } else if k == 11 {
        ShapeCommandKind::FillGradientStartPosition
    } else {
        ShapeCommandKind::FillGradientEndPosition
    }
}

/// The syntax of shape files.
pub fn shape_syntax() -> (r: Syntax)
    ensures
        r.wf(),
        r.keyword_views() == shape_keywords(),
        r.arities@ == shape_arities(),
{
    let keywords = vec![
        String::from_str("M"),
        String::from_str("L"),
        String::from_str("Q"),
        String::from_str("C"),
        String::from_str("Z"),
        String::from_str("z"),
        String::from_str("stroke_thickness"),
        String::from_str("stroke_color"),
        String::from_str("fill_color"),
        String::from_str("fill_gradient_start_color"),
        String::from_str("fill_gradient_end_color"),
        String::from_str("fill_gradient_start_position"),
        String::from_str("fill_gradient_end_position"),
    ];
    let arities: Vec<usize> = vec![2, 2, 4, 6, 0, 0, 1, 4, 4, 4, 4, 2, 2];
    let r = Syntax { keywords, arities };
    assert(r.keyword_views() =~= shape_keywords());
    assert(r.arities@ =~= shape_arities());
    r
}

/// The abstract form of a shape command: what it does, and its argument words.
pub open spec fn shape_command_view(c: ShapeCommand) -> (ShapeCommandKind, Seq<Seq<char>>) {
    (c.kind, views(c.args@))
}

/// The commands of the shape file `text`, or the first error met reading its words from
/// the left.
pub open spec fn spec_shape_commands(text: Seq<char>) -> Result<Seq<(ShapeCommandKind, Seq<Seq<char>>)>, CommandErrorView> {
    match crate::command_file::parse_words(shape_keywords(), shape_arities(), words(text)) {
        Ok(cmds) => Ok(cmds.map_values(|c: (int, Seq<Seq<char>>)| (shape_kind(c.0), c.1))),
        Err(e) => Err(e),
    }
}

/// What the keyword at position `k` of `shape_keywords` does.
fn kind_of_keyword(k: usize) -> (r: ShapeCommandKind)
    ensures
        r == shape_kind(k as int),
{
    match k {
        0 => ShapeCommandKind::MoveTo,
        1 => ShapeCommandKind::LineTo,
        2 => ShapeCommandKind::Quadratic,
        3 => ShapeCommandKind::Cubic,
        4 | 5 => ShapeCommandKind::Close,
        6 => ShapeCommandKind::StrokeThickness,
        7 => ShapeCommandKind::StrokeColor,
        8 => ShapeCommandKind::FillColor,
        9 => ShapeCommandKind::FillGradientStartColor,
        10 => ShapeCommandKind::FillGradientEndColor,
        11 => ShapeCommandKind::FillGradientStartPosition,
        _ => ShapeCommandKind::FillGradientEndPosition,
    }
}

/// Reads the shape file `text` as commands.
pub fn load_shape_commands(text: &str) -> (r: Result<Vec<ShapeCommand>, CommandError>)
    ensures
        match r {
            Ok(cmds) => spec_shape_commands(text@) == Ok::<Seq<(ShapeCommandKind, Seq<Seq<char>>)>, CommandErrorView>(
                cmds@.map_values(|c: ShapeCommand| shape_command_view(c)),
            ),
            Err(e) => spec_shape_commands(text@) == Err::<Seq<(ShapeCommandKind, Seq<Seq<char>>)>, CommandErrorView>(
                e.view_error(),
            ),
        },
{
    let syntax = shape_syntax();
    let ws = split_whitespace(text);
    match parse_commands(&syntax, &ws) {
        Err(e) => Err(e),
        Ok(cmds) => {
            let ghost parsed = cmds@.map_values(|c: Command| command_view(c));
            let mut out: Vec<ShapeCommand> = Vec::new();
            let ghost all = cmds@;
            for c in it: cmds.into_iter()
                invariant
                    it.seq() == all,
                    parsed == all.map_values(|c: Command| command_view(c)),
                    out@.map_values(|c: ShapeCommand| shape_command_view(c)) =~= parsed.take(it.index()).map_values(
                        |c: (int, Seq<Seq<char>>)| (shape_kind(c.0), c.1),
                    ),
            {
                let ghost idx = it.index();
                assert(c == all[idx]);
                assert(parsed.take(idx + 1) =~= parsed.take(idx).push(command_view(c)));
                let ghost before = out@;
                let ghost cv = command_view(c);
                let sc = ShapeCommand { kind: kind_of_keyword(c.keyword), args: c.args };
                assert(shape_command_view(sc) == (shape_kind(cv.0), cv.1));
                out.push(sc);
                assert(out@ == before.push(sc));
                assert(out@.map_values(|c: ShapeCommand| shape_command_view(c)) =~= before.map_values(
                    |c: ShapeCommand| shape_command_view(c)).push(shape_command_view(sc)));
                assert(out@.map_values(|c: ShapeCommand| shape_command_view(c)) =~= parsed.take(idx + 1).map_values(
                    |c: (int, Seq<Seq<char>>)| (shape_kind(c.0), c.1),
                ));
            }
            assert(parsed.take(all.len() as int) =~= parsed);
            Ok(out)
        },
    }
}

} // verus!
