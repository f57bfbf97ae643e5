//! Checking that a resource directory holds what the game needs, from the list of its
//! entries.
use vstd::prelude::*;

verus! {

/// An entry of a directory.
#[derive(Debug, Clone, PartialEq, Eq)]
pub struct DirEntryInfo {
    pub name: String,
    pub is_file: bool,
    pub is_dir: bool,
}

/// An entry that a directory must hold: its name, and whether it must be a directory
/// (`Some(true)`), a file (`Some(false)`), or may be anything (`None`).
#[derive(Debug, Clone, PartialEq, Eq)]
pub struct ExpectedEntry {
    pub name: String,
    pub kind: Option<bool>,
}

/// Whether entry `f` is the expected entry `e`.
pub open spec fn satisfies(f: DirEntryInfo, e: ExpectedEntry) -> bool {
    &&& f.name@ == e.name@
    &&& match e.kind {
        None => true,
        Some(must_be_dir) => if must_be_dir {
            f.is_dir
        } else {
            f.is_file
        },
    }
}

/// Whether some entry of `found` is the expected entry `e`.
pub open spec fn is_present(found: Seq<DirEntryInfo>, e: ExpectedEntry) -> bool {
    exists|j: int| 0 <= j < found.len() && satisfies(#[trigger] found[j], e)
}

/// The names of the expected entries that are missing, in the order expected.
pub open spec fn missing(expected: Seq<ExpectedEntry>, found: Seq<DirEntryInfo>) -> Seq<Seq<char>>
    decreases expected.len(),
{
    if expected.len() == 0 {
        Seq::empty()
    } else {
        let rest = missing(expected.drop_last(), found);
        if is_present(found, expected.last()) {
            rest
        } else {
            rest.push(expected.last().name@)
        }
    }
}

/// Whether some entry of `found` is the expected entry `e`.
fn find_entry(found: &Vec<DirEntryInfo>, e: &ExpectedEntry) -> (r: bool)
    ensures
        r == is_present(found@, *e),
{
    let mut j: usize = 0;
    while j < found.len()
        invariant
            0 <= j <= found@.len(),
            forall|k: int| 0 <= k < j ==> !satisfies(#[trigger] found@[k], *e),
        decreases found@.len() - j,
    {
        let f = &found[j];
        let kind_ok = match e.kind {
            None => true,
            Some(must_be_dir) => if must_be_dir {
                f.is_dir
            } else {
                f.is_file
            },
        };
        if kind_ok && f.name == e.name {
            return true;
        }
        j += 1;
    }
    false
}

/// The names of the entries of `expected` that `found` lacks, in the order expected.
pub fn missing_entries(expected: &Vec<ExpectedEntry>, found: &Vec<DirEntryInfo>) -> (r: Vec<String>)
    ensures
        r@.map_values(|s: String| s@) == missing(expected@, found@),
{
    let mut out: Vec<String> = Vec::new();
    let mut i: usize = 0;
    while i < expected.len()
        invariant
            0 <= i <= expected@.len(),
            out@.map_values(|s: String| s@) == missing(expected@.take(i as int), found@),
        decreases expected@.len() - i,
    {
        assert(expected@.take(i + 1).drop_last() =~= expected@.take(i as int));
        if !find_entry(found, &expected[i]) {
            out.push(expected[i].name.clone());
        }
        assert(out@.map_values(|s: String| s@) =~= missing(expected@.take(i + 1), found@));
        i += 1;
    }
    assert(expected@.take(expected@.len() as int) =~= expected@);
    out
}

/// Whether entry `f` may be the resource directory: a directory named `res`.
pub open spec fn is_res_candidate(f: DirEntryInfo) -> bool {
    f.name@ == "res"@ && f.is_dir
}

/// The positions, in order, of the entries among the first `n` of `found` that may be the
/// resource directory.
pub open spec fn res_candidates_upto(found: Seq<DirEntryInfo>, n: int) -> Seq<usize>
    decreases n,
{
    if n <= 0 {
        Seq::empty()
    } else {
        let before = res_candidates_upto(found, n - 1);
        if is_res_candidate(found[n - 1]) {
            before.push((n - 1) as usize)
        } else {
            before
        }
    }
}

/// The positions, in order, of the entries of `found` that may be the resource directory.
pub fn res_candidates(found: &Vec<DirEntryInfo>) -> (r: Vec<usize>)
    ensures
        r@ == res_candidates_upto(found@, found@.len() as int),
{
    let res = String::from_str("res");
    let mut out: Vec<usize> = Vec::new();
    let mut i: usize = 0;
    while i < found.len()
        invariant
            0 <= i <= found@.len(),
            res@ == "res"@,
            out@ == res_candidates_upto(found@, i as int),
        decreases found@.len() - i,
    {
        if found[i].is_dir && found[i].name == res {
            out.push(i);
        }
        i += 1;
    }
    out
}

} // verus!
