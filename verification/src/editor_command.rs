//! The editor's command line: splitting a command into words, recognizing it, and
//! completing its last word.
use vstd::prelude::*;
use crate::words::{chars_of, first_line, push_char, spec_first_line, split_whitespace, string_of, views, words};

verus! {

/// What remains of a command once a leading `:` is removed.
pub open spec fn strip_colon(cmd: Seq<char>) -> Seq<char> {
    if cmd.len() > 0 && cmd[0] == ':' {
        cmd.drop_first()
    } else {
        cmd
    }
}

/// Whether `command_components` accepts `cmd`: the command must not be a lone `:`.
pub open spec fn has_components(cmd: Seq<char>) -> bool {
    cmd.len() == 0 || strip_colon(cmd).len() > 0
}

/// The words of the first line of a command, without a leading `:`.
pub open spec fn spec_command_components(cmd: Seq<char>) -> Seq<Seq<char>> {
    if cmd.len() == 0 {
        Seq::empty()
    } else {
        words(spec_first_line(strip_colon(cmd))->0)
    }
}

/// The words of the first line of `cmd`, without a leading `:`.
pub fn command_components(cmd: &str) -> (r: Vec<String>)
    requires
        has_components(cmd@),
    ensures
        views(r@) == spec_command_components(cmd@),
{
    let chars = chars_of(cmd);
    if chars.len() == 0 {
        let r: Vec<String> = Vec::new();
        assert(views(r@) =~= Seq::<Seq<char>>::empty());
        return r;
    }
    let rest = if chars[0] == ':' {
        let mut v: Vec<char> = Vec::new();
        let mut i: usize = 1;
        while i < chars.len()
            invariant
                1 <= i <= chars@.len(),
                v@ == chars@.subrange(1, i as int),
            decreases chars@.len() - i,
        {
            v.push(chars[i]);
            i += 1;
        }
        assert(v@ =~= strip_colon(cmd@));
        string_of(v.as_slice())
    } else {
        string_of(chars.as_slice())
    };
    let line = first_line(rest.as_str()).unwrap();
    split_whitespace(line.as_str())
}

/// Whether `command_components` accepts `cmd` (it is not a lone `:`).
pub fn has_command_components(cmd: &str) -> (r: bool)
    ensures
        r == has_components(cmd@),
{
    let chars = chars_of(cmd);
    chars.len() == 0 || !(chars.len() == 1 && chars[0] == ':')
}

/// Whether `cmd` holds a command word that can be run.
pub fn has_command_word(cmd: &str) -> (r: bool)
    ensures
        r == (has_components(cmd@) && spec_command_components(cmd@).len() > 0),
{
    has_command_components(cmd) && command_components(cmd).len() > 0
}

/// An editor command.
#[derive(Debug, Clone, PartialEq, Eq)]
pub enum EditorCommand {
    /// `w [name]`: save the working shape, under `name` if given.
    Write { name: Option<String> },
    /// `e name`: edit the shape `name`; there is no name when none was given.
    Edit { name: Option<String> },
    /// Any other command word.
    Unrecognized { command: String },
}

/// The first argument word, if any.
pub open spec fn first_arg(ws: Seq<Seq<char>>) -> Option<Seq<char>> {
    if ws.len() > 1 {
        Some(ws[1])
    } else {
        None
    }
}

/// Recognizes the command `cmd`, which must hold at least one word.
pub fn parse_editor_command(cmd: &str) -> (r: EditorCommand)
    requires
        has_components(cmd@),
        spec_command_components(cmd@).len() > 0,
    ensures
        ({
            let ws = spec_command_components(cmd@);
            match r {
                EditorCommand::Write { name } => ws[0] == "w"@ && (match name {
                    Some(n) => first_arg(ws) == Some(n@),
                    None => first_arg(ws) is None,
                }),
                EditorCommand::Edit { name } => ws[0] == "e"@ && (match name {
                    Some(n) => first_arg(ws) == Some(n@),
                    None => first_arg(ws) is None,
                }),
                EditorCommand::Unrecognized { command } => ws[0] != "w"@ && ws[0] != "e"@
                    && command@ == ws[0],
            }
        }),
{
    let mut line = command_components(cmd);
    let ghost ws = views(line@);
    let name = if line.len() > 1 {
        let n = line[1].clone();
        Some(n)
    } else {
        None
    };
    let command = line[0].clone();
    if command == String::from_str("w") {
        EditorCommand::Write { name }
    } else if command == String::from_str("e") {
        EditorCommand::Edit { name }
    } else {
        EditorCommand::Unrecognized { command }
    }
}

/// The words of `ws` joined by single spaces, after a `:`.
pub open spec fn colon_joined(ws: Seq<Seq<char>>) -> Seq<char>
    decreases ws.len(),
{
    if ws.len() == 0 {
        seq![':']
    } else if ws.len() == 1 {
        seq![':'] + ws[0]
    } else {
        colon_joined(ws.drop_last()) + seq![' '] + ws.last()
    }
}

/// `text` followed, for each candidate, by a line feed and the candidate.
pub open spec fn with_candidate_lines(text: Seq<char>, candidates: Seq<Seq<char>>) -> Seq<char>
    decreases candidates.len(),
{
    if candidates.len() == 0 {
        text
    } else {
        with_candidate_lines(text, candidates.drop_last()) + seq!['\n'] + candidates.last()
    }
}

/// The command line once its last word is completed with `candidates`: with exactly one
/// candidate, it becomes `:` and its words with the last one replaced by the candidate;
/// otherwise only its first line stays, followed by one line per candidate.
pub open spec fn spec_completed(command_text: Seq<char>, candidates: Seq<Seq<char>>) -> Seq<char> {
    if candidates.len() == 1 {
        let ws = spec_command_components(command_text);
        colon_joined(ws.drop_last().push(candidates[0]))
    } else {
        with_candidate_lines(spec_first_line(command_text)->0, candidates)
    }
}

/// Appends `s` to `out`.
fn append_chars(out: &mut String, s: &String)
    ensures
        final(out)@ == old(out)@ + s@,
{
    out.append(s.as_str());
}

/// The command line once its last word is completed with `candidates` (the names that
/// the word can stand for); it must hold at least two words.
pub fn complete_command(command_text: &str, candidates: &Vec<String>) -> (r: String)
    requires
        has_components(command_text@),
        spec_command_components(command_text@).len() >= 2,
    ensures
        r@ == spec_completed(command_text@, views(candidates@)),
{
    if candidates.len() == 1 {
        let mut ws = command_components(command_text);
        ws.pop();
        ws.push(candidates[0].clone());
        let ghost target = views(ws@);
        assert(target =~= spec_command_components(command_text@).drop_last().push(views(candidates@)[0]));
        let mut out = String::from_str(":");
        proof {
            reveal_strlit(":");
        }
        let mut i: usize = 0;
        while i < ws.len()
            invariant
                0 <= i <= ws@.len(),
                target == views(ws@),
                out@ == colon_joined(target.take(i as int)),
            decreases ws@.len() - i,
        {
            if i > 0 {
                push_char(&mut out, ' ');
            }
            append_chars(&mut out, &ws[i]);
            i += 1;
            assert(target.take(i as int).drop_last() =~= target.take(i - 1));
            assert(i == 1 ==> seq![':'] + target[0] =~= seq![':'] + target.take(i as int)[0]);
        }
        assert(target.take(ws@.len() as int) =~= target);
        out
    } else {
        let line = first_line(command_text).unwrap();
        let mut out = line.clone();
        let mut i: usize = 0;
        assert(views(candidates@).take(0) =~= Seq::<Seq<char>>::empty());
        while i < candidates.len()
            invariant
                0 <= i <= candidates@.len(),
                out@ == with_candidate_lines(line@, views(candidates@).take(i as int)),
            decreases candidates@.len() - i,
        {
            push_char(&mut out, '\n');
            append_chars(&mut out, &candidates[i]);
            i += 1;
            assert(views(candidates@).take(i as int).drop_last() =~= views(candidates@).take(i - 1));
        }
        assert(views(candidates@).take(candidates@.len() as int) =~= views(candidates@));
        out
    }
}

/// The text being typed on the editor's command line.
#[derive(Debug, Clone, PartialEq, Eq)]
pub struct CommandLine {
    pub is_entering_command: bool,
    pub text: String,
}

/// The text with every line but the first one removed (nothing stays of an empty text).
pub open spec fn first_line_or_empty(text: Seq<char>) -> Seq<char> {
    match spec_first_line(text) {
        Some(l) => l,
        None => Seq::empty(),
    }
}

impl CommandLine {
    pub fn new() -> (r: CommandLine)
        ensures
            !r.is_entering_command,
            r.text@ == Seq::<char>::empty(),
    {
        CommandLine { is_entering_command: false, text: String::new() }
    }

    /// Types `s`: the candidate lines listed below the command go away, and `s` is
    /// appended to the command.
    pub fn type_text(&mut self, s: &str)
        ensures
            final(self).text@ == first_line_or_empty(old(self).text@) + s@,
            final(self).is_entering_command == old(self).is_entering_command,
    {
        match first_line(self.text.as_str()) {
            Some(l) => {
                self.text = l;
            },
            None => {},
        }
        self.text.append(s);
    }

    /// Erases the last character of the command, once the candidate lines are gone.
    pub fn backspace(&mut self)
        ensures
            final(self).text@ == (if first_line_or_empty(old(self).text@).len() > 0 {
                first_line_or_empty(old(self).text@).drop_last()
            } else {
                first_line_or_empty(old(self).text@)
            }),
            final(self).is_entering_command == old(self).is_entering_command,
    {
        let line = match first_line(self.text.as_str()) {
            Some(l) => l,
            None => String::new(),
        };
        let mut chars = chars_of(line.as_str());
        if chars.len() > 0 {
            chars.pop();
        }
        self.text = string_of(chars.as_slice());
    }

    /// Stops entering a command, and forgets it.
    pub fn clear(&mut self)
        ensures
            !final(self).is_entering_command,
            final(self).text@ == Seq::<char>::empty(),
    {
        self.is_entering_command = false;
        self.text = String::new();
    }
}

} // verus!
