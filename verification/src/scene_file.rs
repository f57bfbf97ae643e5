//! The text format of gameplay scenes: a list of shape instances, each begun by
//! `I source_shape_name instance_name` and optionally followed by overrides of its
//! position (`P x y z`), rotation in degrees (`R deg`) and scale (`S sx sy`). The
//! numbers stay words here; the application converts them.
use vstd::prelude::*;
use vstd::std_specs::iter::IteratorSpec;
use crate::command_file::{Command, CommandError, CommandErrorView, Syntax, parse_commands, command_view, parse_words};
use crate::words::{split_whitespace, views, words};

verus! {

/// A shape instance as a scene file describes it.
#[derive(Debug, Clone, PartialEq, Eq)]
pub struct ShapeInstanceRecord {
    pub source_shape_name: String,
    pub name: String,
    /// The words of the last `P` command of the instance, if any.
    pub position: Option<Vec<String>>,
    /// The word of the last `R` command of the instance, if any.
    pub rotation_degrees: Option<String>,
    /// The words of the last `S` command of the instance, if any.
    pub scale: Option<Vec<String>>,
}

/// The abstract form of a `ShapeInstanceRecord`.
pub struct ShapeInstanceRecordView {
    pub source_shape_name: Seq<char>,
    pub name: Seq<char>,
    pub position: Option<Seq<Seq<char>>>,
    pub rotation_degrees: Option<Seq<char>>,
    pub scale: Option<Seq<Seq<char>>>,
}

impl View for ShapeInstanceRecord {
    type V = ShapeInstanceRecordView;

    open spec fn view(&self) -> ShapeInstanceRecordView {
        ShapeInstanceRecordView {
            source_shape_name: self.source_shape_name@,
            name: self.name@,
            position: match self.position {
                Some(p) => Some(views(p@)),
                None => None,
            },
            rotation_degrees: match self.rotation_degrees {
                Some(r) => Some(r@),
                None => None,
            },
            scale: match self.scale {
                Some(s) => Some(views(s@)),
                None => None,
            },
        }
    }
}

/// Why a scene file could not be read.
#[derive(Debug, Clone, PartialEq, Eq)]
pub enum SceneLoadError {
    Command(CommandError),
    /// A `P`, `R` or `S` command comes before any `I` command.
    NoInstance,
}

/// The abstract form of a `SceneLoadError`.
pub enum SceneLoadErrorView {
    Command(CommandErrorView),
    NoInstance,
}

impl SceneLoadError {
    pub open spec fn view_error(self) -> SceneLoadErrorView {
        match self {
            SceneLoadError::Command(e) => SceneLoadErrorView::Command(e.view_error()),
            SceneLoadError::NoInstance => SceneLoadErrorView::NoInstance,
        }
    }
}

/// The keywords of scene files, in the order `scene_syntax` lists them.
pub open spec fn scene_keywords() -> Seq<Seq<char>> {
    seq!["I"@, "P"@, "R"@, "S"@]
}

/// How many words follow each keyword of `scene_keywords`.
pub open spec fn scene_arities() -> Seq<usize> {
    seq![2usize, 3, 1, 2]
}

/// The syntax of scene files.
pub fn scene_syntax() -> (r: Syntax)
    ensures
        r.wf(),
        r.keyword_views() == scene_keywords(),
        r.arities@ == scene_arities(),
{
    let keywords = vec![
        String::from_str("I"),
        String::from_str("P"),
        String::from_str("R"),
        String::from_str("S"),
    ];
    let arities: Vec<usize> = vec![2, 3, 1, 2];
    let r = Syntax { keywords, arities };
    assert(r.keyword_views() =~= scene_keywords());
    assert(r.arities@ =~= scene_arities());
    r
}

/// The instances once the command with keyword `k` and arguments `args` is applied, or
/// nothing if it needs an instance and there is none.
pub open spec fn apply_scene_command(
    recs: Seq<ShapeInstanceRecordView>,
    k: int,
    args: Seq<Seq<char>>,
) -> Option<Seq<ShapeInstanceRecordView>> {
    if k == 0 {
        Some(
            recs.push(
                ShapeInstanceRecordView {
                    source_shape_name: args[0],
                    name: args[1],
                    position: None,
                    rotation_degrees: None,
                    scale: None,
                },
            ),
        )
    } else if recs.len() == 0 {
        None
    } else {
        let last = recs.last();
        let updated = if k == 1 {
            ShapeInstanceRecordView { position: Some(args), ..last }
        } else if k == 2 {
            ShapeInstanceRecordView { rotation_degrees: Some(args[0]), ..last }
        } else {
            ShapeInstanceRecordView { scale: Some(args), ..last }
        };
        Some(recs.drop_last().push(updated))
    }
}

/// The instances that `cmds` describe, applied from the left, or nothing if one of
/// them needs an instance and there is none.
pub open spec fn apply_scene_commands(cmds: Seq<(int, Seq<Seq<char>>)>) -> Option<Seq<ShapeInstanceRecordView>>
    decreases cmds.len(),
{
    if cmds.len() == 0 {
        Some(Seq::empty())
    } else {
        match apply_scene_commands(cmds.drop_last()) {
            None => None,
            Some(recs) => apply_scene_command(recs, cmds.last().0, cmds.last().1),
        }
    }
}

/// The instances that the scene file `text` describes, or why it cannot be read: its
/// words are read as commands first, then the commands are applied.
pub open spec fn spec_scene_records(text: Seq<char>) -> Result<Seq<ShapeInstanceRecordView>, SceneLoadErrorView> {
    match parse_words(scene_keywords(), scene_arities(), words(text)) {
        Err(e) => Err(SceneLoadErrorView::Command(e)),
        Ok(cmds) => match apply_scene_commands(cmds) {
            None => Err(SceneLoadErrorView::NoInstance),
            Some(recs) => Ok(recs),
        },
    }
}

/// Once a command needs an instance that is missing, applying more commands cannot help.
proof fn lemma_missing_instance_stays(cmds: Seq<(int, Seq<Seq<char>>)>, n: int)
    requires
        0 <= n <= cmds.len(),
        apply_scene_commands(cmds.take(n)) is None,
    ensures
        apply_scene_commands(cmds) is None,
    decreases cmds.len() - n,
{
    if n < cmds.len() {
        assert(cmds.take(n + 1).drop_last() =~= cmds.take(n));
        lemma_missing_instance_stays(cmds, n + 1);
    } else {
        assert(cmds.take(n) =~= cmds);
    }
}

/// Reads the scene file `text`.
pub fn load_scene_records(text: &str) -> (r: Result<Vec<ShapeInstanceRecord>, SceneLoadError>)
    ensures
        match r {
            Ok(recs) => spec_scene_records(text@) == Ok::<Seq<ShapeInstanceRecordView>, SceneLoadErrorView>(
                recs@.map_values(|x: ShapeInstanceRecord| x@),
            ),
            Err(e) => spec_scene_records(text@) == Err::<Seq<ShapeInstanceRecordView>, SceneLoadErrorView>(
                e.view_error(),
            ),
        },
{
    let syntax = scene_syntax();
    let ws = split_whitespace(text);
    let cmds = match parse_commands(&syntax, &ws) {
        Err(e) => {
            return Err(SceneLoadError::Command(e));
        },
        Ok(cmds) => cmds,
    };
    let ghost all = cmds@;
    let ghost parsed = cmds@.map_values(|c: Command| command_view(c));
    proof {
        crate::command_file::lemma_parsed_commands_fit(scene_keywords(), scene_arities(), words(text@));
        assert forall|i: int| 0 <= i < all.len() implies (#[trigger] all[i]).keyword < 4
            && all[i].args@.len() == scene_arities()[all[i].keyword as int] by {
            assert(parsed[i] == command_view(all[i]));
        }
    }
    let mut recs: Vec<ShapeInstanceRecord> = Vec::new();
    for c in it: cmds.into_iter()
        invariant
            it.seq() == all,
            parsed == all.map_values(|c: Command| command_view(c)),
            parse_words(scene_keywords(), scene_arities(), words(text@)) == Ok::<
                Seq<(int, Seq<Seq<char>>)>,
                CommandErrorView,
            >(parsed),
            forall|i: int| 0 <= i < all.len() ==> (#[trigger] all[i]).keyword < 4
                && all[i].args@.len() == scene_arities()[all[i].keyword as int],
            apply_scene_commands(parsed.take(it.index())) == Some(recs@.map_values(|x: ShapeInstanceRecord| x@)),
    {
        let ghost idx = it.index();
        let ghost before = recs@.map_values(|x: ShapeInstanceRecord| x@);
        assert(c == all[idx]);
        assert(parsed.take(idx + 1).drop_last() =~= parsed.take(idx));
        let Command { keyword, mut args } = c;
        if keyword == 0 {
            let name = args.pop().unwrap();
            let source_shape_name = args.pop().unwrap();
            recs.push(ShapeInstanceRecord {
                source_shape_name,
                name,
                position: None,
                rotation_degrees: None,
                scale: None,
            });
            assert(recs@.map_values(|x: ShapeInstanceRecord| x@) =~= apply_scene_command(
                before, 0, views(all[idx].args@)).unwrap());
        } else {
            if recs.len() == 0 {
                proof {
                    assert(parsed.take(idx + 1).last() == parsed[idx]);
                    assert(apply_scene_commands(parsed.take(idx + 1)) is None);
                    lemma_missing_instance_stays(parsed, idx + 1);
                }
                return Err(SceneLoadError::NoInstance);
            }
            let mut last = recs.pop().unwrap();
            if keyword == 1 {
                last.position = Some(args);
            } else if keyword == 2 {
                last.rotation_degrees = Some(args.pop().unwrap());
            } else {
                last.scale = Some(args);
            }
            recs.push(last);
            assert(recs@.map_values(|x: ShapeInstanceRecord| x@) =~= apply_scene_command(
                before, keyword as int, views(all[idx].args@)).unwrap());
        }
    }
    assert(parsed.take(all.len() as int) =~= parsed);
    Ok(recs)
}

} // verus!
