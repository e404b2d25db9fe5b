//! The search through an ordered list of directories.
//!
//! The search is a state machine.  It names the path whose existence is to be
//! tested; the caller tests it and answers; the machine then names the file to
//! read, the next path to test, or the failure.  The first directory that
//! holds the file wins.

use vstd::prelude::*;
use vstd::string::*;
use crate::error::FetchError;
use crate::text::clone_strings;

verus! {

/// The path of `name` below `dir`: `name` itself if it starts at the root,
/// else `dir` and `name` with exactly one separator where `dir` does not
/// bring its own.
pub open spec fn joined(dir: Seq<char>, name: Seq<char>) -> Seq<char> {
    if name.len() > 0 && name[0] == '/' {
        name
    } else if dir.len() > 0 && dir[dir.len() - 1] != '/' {
        dir + seq!['/'] + name
    } else {
        dir + name
    }
}

/// Joins a directory and a relative name.
pub fn join_path(dir: &str, name: &str) -> (r: String)
    ensures
        r@ == joined(dir@, name@),
{
    let name_len = name.unicode_len();
    if name_len > 0 && name.get_char(0) == '/' {
        return String::from_str(name);
    }
    let dir_len = dir.unicode_len();
    let mut path = String::from_str(dir);
    if dir_len > 0 && dir.get_char(dir_len - 1) != '/' {
        proof {
            reveal_strlit("/");
            assert("/"@ =~= seq!['/']);
        }
        path.append("/");
    }
    path.append(name);
    path
}

/// A search in progress: the directories, the name, and the position of the
/// directory that is tested next.
#[derive(Debug, Clone)]
pub struct FolderSearch {
    pub dirs: Vec<String>,
    pub file_name: String,
    pub next: usize,
}

/// What the caller of a search has to do next.
#[derive(Debug, Clone)]
pub enum SearchStep {
    /// Test whether this path exists and answer.
    Probe(String),
    /// Read the whole file at `path`; `provenance` is the directory it was
    /// found in.
    Found { path: String, provenance: String },
    /// The search has failed.
    Failed(FetchError),
}

/// How a search ends, as plain text.
pub ghost enum SearchOutcome {
    /// The file is read from `path`, found in directory `provenance`.
    Read { path: Seq<char>, provenance: Seq<char> },
    /// No directory holds the file; the directories that were tried.
    Missing { tried: Seq<Seq<char>> },
}

/// The position of the first directory, from `from` on, below which `name`
/// is among the paths in `present`.
pub open spec fn first_holding(
    dirs: Seq<Seq<char>>,
    name: Seq<char>,
    present: Set<Seq<char>>,
    from: int,
) -> Option<int>
    decreases dirs.len() - from,
{
    if from < 0 || from >= dirs.len() {
        None
    } else if present.contains(joined(dirs[from], name)) {
        Some(from)
    } else {
        first_holding(dirs, name, present, from + 1)
    }
}

/// How the search for `name` through `dirs` ends, from position `from` on,
/// where exactly the paths in `present` exist.
pub open spec fn search_outcome(
    dirs: Seq<Seq<char>>,
    name: Seq<char>,
    present: Set<Seq<char>>,
    from: int,
) -> SearchOutcome {
    match first_holding(dirs, name, present, from) {
        Some(k) => SearchOutcome::Read { path: joined(dirs[k], name), provenance: dirs[k] },
        None => SearchOutcome::Missing { tried: dirs },
    }
}

impl SearchStep {
    /// The step ends the search in the given way.
    pub open spec fn ends_with(self, outcome: SearchOutcome) -> bool {
        match self {
            SearchStep::Probe(_) => false,
            SearchStep::Found { path, provenance } => outcome == (SearchOutcome::Read {
                path: path@,
                provenance: provenance@,
            }),
            SearchStep::Failed(e) => e matches FetchError::NFD(tried) && outcome == (
            SearchOutcome::Missing { tried: tried.deep_view() }),
        }
    }
}

impl FolderSearch {
    /// A directory is left to be tested.
    pub open spec fn pending(self) -> bool {
        self.next < self.dirs.len()
    }

    /// The path that is tested next.
    pub open spec fn candidate(self) -> Seq<char>
        recommends
            self.pending(),
    {
        joined(self.dirs[self.next as int]@, self.file_name@)
    }

    /// How this search ends where exactly the paths in `present` exist.
    pub open spec fn outcome(self, present: Set<Seq<char>>) -> SearchOutcome {
        search_outcome(self.dirs.deep_view(), self.file_name@, present, self.next as int)
    }

    /// `step` is what the search waits for: the test of the next candidate,
    /// or, with no directory left, the failure that lists all of them.
    pub open spec fn waits_with(self, step: SearchStep) -> bool {
        if self.pending() {
            step matches SearchStep::Probe(path) && path@ == self.candidate()
        } else {
            step matches SearchStep::Failed(FetchError::NFD(tried)) && tried@ == self.dirs@
        }
    }

    /// `after` and `step` are what answering `found` makes of `self`.
    pub open spec fn answered(self, found: bool, after: FolderSearch, step: SearchStep) -> bool {
        &&& after.dirs == self.dirs
        &&& after.file_name == self.file_name
        &&& if self.pending() && found {
            &&& after.next == self.next
            &&& step matches SearchStep::Found { path, provenance }
            &&& path@ == self.candidate()
            &&& provenance == self.dirs[self.next as int]
        } else if self.pending() {
            &&& after.next == self.next + 1
            &&& after.waits_with(step)
        } else {
            &&& after.next == self.next
            &&& after.waits_with(step)
        }
    }

    /// A search for `file_name` through `dirs`, in their order.
    pub fn new(dirs: &Vec<String>, file_name: &str) -> (r: FolderSearch)
        ensures
            r.dirs@ == dirs@,
            r.file_name@ == file_name@,
            r.next == 0,
    {
        FolderSearch { dirs: clone_strings(dirs), file_name: String::from_str(file_name), next: 0 }
    }

    /// What the search waits for.
    pub fn current(&self) -> (r: SearchStep)
        ensures
            self.waits_with(r),
    {
        if self.next < self.dirs.len() {
            SearchStep::Probe(join_path(self.dirs[self.next].as_str(), self.file_name.as_str()))
        } else {
            SearchStep::Failed(FetchError::NFD(clone_strings(&self.dirs)))
        }
    }

    /// Takes the answer to the pending test.  If the path exists, the file is
    /// read from it and the directory is its provenance; if not, the search
    /// moves on to the next directory.  With no test pending the answer is
    /// ignored.
    pub fn answer(&mut self, found: bool) -> (r: SearchStep)
        ensures
            old(self).answered(found, *final(self), r),
    {
        if self.next < self.dirs.len() {
            if found {
                return SearchStep::Found {
                    path: join_path(self.dirs[self.next].as_str(), self.file_name.as_str()),
                    provenance: self.dirs[self.next].clone(),
                };
            }
            self.next = self.next + 1;
        }
        self.current()
    }
}

/// From `from` on, the first directory that holds the file is `k`.
proof fn lemma_first_holding_from(
    dirs: Seq<Seq<char>>,
    name: Seq<char>,
    present: Set<Seq<char>>,
    from: int,
    k: int,
)
    requires
        0 <= from <= k < dirs.len(),
        present.contains(joined(dirs[k], name)),
        forall|i: int| from <= i < k ==> !present.contains(#[trigger] joined(dirs[i], name)),
    ensures
        first_holding(dirs, name, present, from) == Some(k),
    decreases k - from,
{
    if from < k {
        lemma_first_holding_from(dirs, name, present, from + 1, k);
    }
}

/// From `from` on, no directory holds the file.
proof fn lemma_none_holding_from(
    dirs: Seq<Seq<char>>,
    name: Seq<char>,
    present: Set<Seq<char>>,
    from: int,
)
    requires
        0 <= from,
        forall|i: int| from <= i < dirs.len() ==> !present.contains(#[trigger] joined(dirs[i], name)),
    ensures
        first_holding(dirs, name, present, from) is None,
    decreases dirs.len() - from,
{
    if from < dirs.len() {
        lemma_none_holding_from(dirs, name, present, from + 1);
    }
}

/// If the file exists below directory `k` and below none of the directories
/// before it, the search reads it from there and reports that directory,
/// whatever the directories after it hold.
pub proof fn lemma_first_holding_directory_wins(
    dirs: Seq<Seq<char>>,
    name: Seq<char>,
    present: Set<Seq<char>>,
    k: int,
)
    requires
        0 <= k < dirs.len(),
        present.contains(joined(dirs[k], name)),
        forall|i: int| 0 <= i < k ==> !present.contains(#[trigger] joined(dirs[i], name)),
    ensures
        search_outcome(dirs, name, present, 0) == (SearchOutcome::Read {
            path: joined(dirs[k], name),
            provenance: dirs[k],
        }),
{
    lemma_first_holding_from(dirs, name, present, 0, k);
}

/// If the file exists below none of the directories, the search fails and
/// reports exactly the configured directories.
pub proof fn lemma_missing_everywhere(
    dirs: Seq<Seq<char>>,
    name: Seq<char>,
    present: Set<Seq<char>>,
)
    requires
        forall|i: int| 0 <= i < dirs.len() ==> !present.contains(#[trigger] joined(dirs[i], name)),
    ensures
        search_outcome(dirs, name, present, 0) == (SearchOutcome::Missing { tried: dirs }),
{
    lemma_none_holding_from(dirs, name, present, 0);
}

/// A search that waits with anything but a test has ended as the outcome
/// says.
pub proof fn lemma_waiting_step_is_outcome(
    search: FolderSearch,
    step: SearchStep,
    present: Set<Seq<char>>,
)
    requires
        search.waits_with(step),
        !(step is Probe),
    ensures
        step.ends_with(search.outcome(present)),
{
    let tried = step->Failed_0->NFD_0;
    assert(tried.deep_view() == search.dirs.deep_view());
}

/// Answering each test by what exists drives the machine to the outcome of
/// the search: an answer that is followed by another test leaves the outcome
/// as it was, and any other step is that outcome.
pub proof fn lemma_answer_keeps_outcome(
    before: FolderSearch,
    found: bool,
    after: FolderSearch,
    step: SearchStep,
    present: Set<Seq<char>>,
)
    requires
        before.answered(found, after, step),
        before.pending() ==> found == present.contains(before.candidate()),
    ensures
        after.outcome(present) == before.outcome(present),
        !(step is Probe) ==> step.ends_with(before.outcome(present)),
{
    let dirs = before.dirs.deep_view();
    let name = before.file_name@;
    let next = before.next as int;
    assert(after.dirs.deep_view() == dirs);
    if before.pending() {
        assert(dirs[next] == before.dirs[next]@);
        assert(before.candidate() == joined(dirs[next], name));
        if found {
            assert(first_holding(dirs, name, present, next) == Some(next));
        } else {
            assert(first_holding(dirs, name, present, next) == first_holding(
                dirs,
                name,
                present,
                next + 1,
            ));
            if !(step is Probe) {
                lemma_waiting_step_is_outcome(after, step, present);
            }
        }
    } else {
        lemma_waiting_step_is_outcome(after, step, present);
    }
}

} // verus!
