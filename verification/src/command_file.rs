//! Text files made of commands: a keyword followed by a fixed number of argument words.
use vstd::prelude::*;
use crate::words::views;

verus! {

/// A command read from a file: which keyword it starts with, and its argument words.
#[derive(Debug, Clone, PartialEq, Eq)]
pub struct Command {
    /// The position of the keyword in the syntax.
    pub keyword: usize,
    pub args: Vec<String>,
}

/// Why a file could not be read as commands.
#[derive(Debug, Clone, PartialEq, Eq)]
pub enum CommandError {
    /// The word is not a keyword of the syntax.
    UnknownCommand(String),
    /// The file ends before all the arguments of this keyword.
    MissingArgument(String),
}

/// The abstract form of a `CommandError`.
pub enum CommandErrorView {
    UnknownCommand(Seq<char>),
    MissingArgument(Seq<char>),
}

impl CommandError {
    pub open spec fn view_error(self) -> CommandErrorView {
        match self {
            CommandError::UnknownCommand(w) => CommandErrorView::UnknownCommand(w@),
            CommandError::MissingArgument(w) => CommandErrorView::MissingArgument(w@),
        }
    }
}

/// The keywords of a file format, and how many argument words each one takes.
pub struct Syntax {
    pub keywords: Vec<String>,
    pub arities: Vec<usize>,
}

impl Syntax {
    pub open spec fn wf(self) -> bool {
        self.keywords@.len() == self.arities@.len()
    }

    /// The keywords, as character sequences.
    pub open spec fn keyword_views(self) -> Seq<Seq<char>> {
        views(self.keywords@)
    }

    /// The first keyword equal to `w`, if any.
    pub open spec fn keyword_of(self, w: Seq<char>) -> Option<int> {
        keyword_index(self.keyword_views(), w)
    }

    /// The commands that `words` holds (see `parse_words`).
    pub open spec fn parse(self, words: Seq<Seq<char>>) -> Result<Seq<(int, Seq<Seq<char>>)>, CommandErrorView> {
        parse_words(self.keyword_views(), self.arities@, words)
    }
}

/// The position of the first keyword of `keywords` equal to `w`, if any.
pub open spec fn keyword_index(keywords: Seq<Seq<char>>, w: Seq<char>) -> Option<int>
    decreases keywords.len(),
{
    if keywords.len() == 0 {
        None
    } else if keywords[0] == w {
        Some(0)
    } else {
        match keyword_index(keywords.drop_first(), w) {
            Some(i) => Some(i + 1),
            None => None,
        }
    }
}

/// `keyword_index` finds the first equal keyword, and finds none when there is none.
pub proof fn lemma_keyword_index(keywords: Seq<Seq<char>>, w: Seq<char>)
    ensures
        match keyword_index(keywords, w) {
            Some(i) => 0 <= i < keywords.len() && keywords[i] == w && forall|j: int|
                0 <= j < i ==> #[trigger] keywords[j] != w,
            None => forall|j: int| 0 <= j < keywords.len() ==> #[trigger] keywords[j] != w,
        },
    decreases keywords.len(),
{
    if keywords.len() > 0 {
        lemma_keyword_index(keywords.drop_first(), w);
        if keywords[0] != w {
            match keyword_index(keywords.drop_first(), w) {
                Some(i) => {
                    assert forall|j: int| 0 <= j < i + 1 implies #[trigger] keywords[j] != w by {
                        if j > 0 {
                            assert(keywords[j] == keywords.drop_first()[j - 1]);
                        }
                    }
                },
                None => {
                    assert forall|j: int| 0 <= j < keywords.len() implies #[trigger] keywords[j] != w by {
                        if j > 0 {
                            assert(keywords[j] == keywords.drop_first()[j - 1]);
                        }
                    }
                },
            }
        }
    }
}

/// The commands that `words` holds, each as the position of its keyword in `keywords`
/// and its arguments (as many words as `arities` gives the keyword), or the first error
/// met reading them from the left.
pub open spec fn parse_words(
    keywords: Seq<Seq<char>>,
    arities: Seq<usize>,
    words: Seq<Seq<char>>,
) -> Result<Seq<(int, Seq<Seq<char>>)>, CommandErrorView>
    decreases words.len(),
{
    if words.len() == 0 {
        Ok(Seq::empty())
    } else {
        match keyword_index(keywords, words[0]) {
            None => Err(CommandErrorView::UnknownCommand(words[0])),
            Some(k) => {
                let n = arities[k] as int;
                if words.len() < 1 + n {
                    Err(CommandErrorView::MissingArgument(words[0]))
                } else {
                    match parse_words(keywords, arities, words.skip(1 + n)) {
                        Ok(rest) => Ok(seq![(k, words.subrange(1, 1 + n))] + rest),
                        Err(e) => Err(e),
                    }
                }
            },
        }
    }
}

/// Every command read has a keyword of the syntax and exactly as many arguments as it takes.
pub proof fn lemma_parsed_commands_fit(keywords: Seq<Seq<char>>, arities: Seq<usize>, words: Seq<Seq<char>>)
    requires
        keywords.len() == arities.len(),
    ensures
        parse_words(keywords, arities, words) matches Ok(cmds) ==> forall|i: int|
            0 <= i < cmds.len() ==> 0 <= (#[trigger] cmds[i]).0 < keywords.len() && cmds[i].1.len()
                == arities[cmds[i].0],
    decreases words.len(),
{
    if words.len() > 0 {
        lemma_keyword_index(keywords, words[0]);
        if let Some(k) = keyword_index(keywords, words[0]) {
            let n = arities[k] as int;
            if words.len() >= 1 + n {
                lemma_parsed_commands_fit(keywords, arities, words.skip(1 + n));
                if let Ok(rest) = parse_words(keywords, arities, words.skip(1 + n)) {
                    let cmds = seq![(k, words.subrange(1, 1 + n))] + rest;
                    assert forall|i: int| 0 <= i < cmds.len() implies 0 <= (#[trigger] cmds[i]).0
                        < keywords.len() && cmds[i].1.len() == arities[cmds[i].0] by {
                        if i > 0 {
                            assert(cmds[i] == rest[i - 1]);
                        }
                    }
                }
            }
        }
    }
}

/// The abstract form of a command.
pub open spec fn command_view(c: Command) -> (int, Seq<Seq<char>>) {
    (c.keyword as int, views(c.args@))
}

/// The position of the first keyword equal to `w`, if any.
fn find_keyword(syntax: &Syntax, w: &String) -> (r: Option<usize>)
    requires
        syntax.wf(),
    ensures
        match r {
            Some(k) => k < syntax.keywords@.len() && syntax.keyword_of(w@) == Some(k as int),
            None => syntax.keyword_of(w@) is None,
        },
{
    let ghost kws = syntax.keyword_views();
    proof {
        lemma_keyword_index(kws, w@);
    }
    let mut i: usize = 0;
    while i < syntax.keywords.len()
        invariant
            0 <= i <= syntax.keywords@.len(),
            kws == syntax.keyword_views(),
            forall|j: int| 0 <= j < i ==> #[trigger] kws[j] != w@,
        decreases syntax.keywords@.len() - i,
    {
        if syntax.keywords[i] == *w {
            assert(kws[i as int] == w@);
            assert(syntax.keyword_of(w@) == Some(i as int)) by {
                lemma_keyword_index(kws, w@);
                match keyword_index(kws, w@) {
                    Some(c) => {
                        if c < i {
                            assert(kws[c] != w@);
                        }
                        if c > i {
                            assert(kws[i as int] != w@);
                        }
                    },
                    None => {
                        assert(kws[i as int] != w@);
                    },
                }
            }
            return Some(i);
        }
        assert(kws[i as int] != w@);
        i += 1;
    }
    proof {
        if let Some(c) = keyword_index(kws, w@) {
            assert(kws[c] != w@);
        }
    }
    None
}

/// The words of `words` from position `from` up to `to`, `to` excluded.
fn copy_words(words: &Vec<String>, from: usize, to: usize) -> (r: Vec<String>)
    requires
        from <= to <= words@.len(),
    ensures
        views(r@) == views(words@).subrange(from as int, to as int),
{
    let mut r: Vec<String> = Vec::new();
    let mut i = from;
    while i < to
        invariant
            from <= i <= to <= words@.len(),
            views(r@) == views(words@).subrange(from as int, i as int),
        decreases to - i,
    {
        let ghost before = r@;
        let w = words[i].clone();
        r.push(w);
        assert(r@ == before.push(w));
        assert(views(r@) =~= views(before).push(words@[i as int]@));
        i += 1;
        assert(views(r@) =~= views(words@).subrange(from as int, i as int));
    }
    r
}

/// `res` with `done` put before the commands it holds.
pub open spec fn prepend(
    done: Seq<(int, Seq<Seq<char>>)>,
    res: Result<Seq<(int, Seq<Seq<char>>)>, CommandErrorView>,
) -> Result<Seq<(int, Seq<Seq<char>>)>, CommandErrorView> {
    match res {
        Ok(rest) => Ok(done + rest),
        Err(e) => Err(e),
    }
}

/// Reading the words from position `i` on starts with the command at `i`.
proof fn lemma_parse_step(
    syntax: Syntax,
    all: Seq<Seq<char>>,
    i: int,
    k: int,
    n: int,
    done: Seq<(int, Seq<Seq<char>>)>,
)
    requires
        syntax.wf(),
        0 <= i < all.len(),
        syntax.keyword_of(all[i]) == Some(k),
        0 <= k < syntax.keywords@.len(),
        n == syntax.arities@[k] as int,
        i + 1 + n <= all.len(),
    ensures
        prepend(done, syntax.parse(all.skip(i))) == prepend(
            done.push((k, all.subrange(i + 1, i + 1 + n))),
            syntax.parse(all.skip(i + 1 + n)),
        ),
{
    let rest = all.skip(i);
    assert(rest[0] == all[i]);
    assert(rest.subrange(1, 1 + n) =~= all.subrange(i + 1, i + 1 + n));
    assert(rest.skip(1 + n) =~= all.skip(i + 1 + n));
    match syntax.parse(all.skip(i + 1 + n)) {
        Ok(r2) => {
            assert(done.push((k, all.subrange(i + 1, i + 1 + n))) + r2 =~= done + (seq![
                (k, all.subrange(i + 1, i + 1 + n)),
            ] + r2));
        },
        Err(_) => {},
    }
}

/// Reads `words` as commands of `syntax`, from the left.
pub fn parse_commands(syntax: &Syntax, words: &Vec<String>) -> (r: Result<Vec<Command>, CommandError>)
    requires
        syntax.wf(),
    ensures
        match r {
            Ok(cmds) => syntax.parse(views(words@)) == Ok::<Seq<(int, Seq<Seq<char>>)>, CommandErrorView>(
                cmds@.map_values(|c: Command| command_view(c)),
            ),
            Err(e) => syntax.parse(views(words@)) == Err::<Seq<(int, Seq<Seq<char>>)>, CommandErrorView>(
                e.view_error(),
            ),
        },
{
    let ghost all = views(words@);
    let mut cmds: Vec<Command> = Vec::new();
    let mut i: usize = 0;
    assert(all.skip(0) =~= all);
    assert(prepend(Seq::empty(), syntax.parse(all)) == syntax.parse(all)) by {
        match syntax.parse(all) {
            Ok(r) => {
                assert(Seq::<(int, Seq<Seq<char>>)>::empty() + r =~= r);
            },
            Err(_) => {},
        }
    }
    while i < words.len()
        invariant
            0 <= i <= words@.len(),
            syntax.wf(),
            all == views(words@),
            syntax.parse(all) == prepend(
                cmds@.map_values(|c: Command| command_view(c)),
                syntax.parse(all.skip(i as int)),
            ),
        decreases words@.len() - i,
    {
        let ghost rest = all.skip(i as int);
        assert(rest[0] == words@[i as int]@);
        match find_keyword(syntax, &words[i]) {
            None => {
                return Err(CommandError::UnknownCommand(words[i].clone()));
            },
            Some(k) => {
                let n = syntax.arities[k];
                if words.len() - i - 1 < n {
                    return Err(CommandError::MissingArgument(words[i].clone()));
                }
                let args = copy_words(words, i + 1, i + 1 + n);
                let ghost before = cmds@.map_values(|c: Command| command_view(c));
                proof {
                    lemma_parse_step(*syntax, all, i as int, k as int, n as int, before);
                }
                cmds.push(Command { keyword: k, args });
                assert(cmds@.map_values(|c: Command| command_view(c)) =~= before.push(
                    (k as int, all.subrange(i + 1, i + 1 + n as int)),
                ));
                i = i + 1 + n;
            },
        }
    }
    assert(all.skip(i as int) =~= Seq::<Seq<char>>::empty());
    assert(cmds@.map_values(|c: Command| command_view(c)) + Seq::<(int, Seq<Seq<char>>)>::empty()
        =~= cmds@.map_values(|c: Command| command_view(c)));
    Ok(cmds)
}

} // verus!
