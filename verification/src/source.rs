//! The data source: one of several interchangeable backends behind a single
//! lookup by file name.

use vstd::prelude::*;
use vstd::string::*;
use crate::archive::{get_file_from_tar, gives, lookup};
use crate::cache::FileCache;
use crate::error::FetchError;
use crate::folders::{
    joined, lemma_first_holding_directory_wins, lemma_missing_everywhere, FolderSearch,
    SearchOutcome,
};
use crate::http::HttpSource;
use crate::single::{GetPath, SingleFileSource, SourceStep};

verus! {

/// Content and, where known, the place it was found.
pub type Content = Result<(Vec<u8>, Option<String>), FetchError>;

/// A backend of the caller's own.
pub trait SyncFolderSource: Send + Sync {
    /// `r` is what this backend gives for the file `name`.  Each backend says
    /// for itself what that is; one that says nothing allows every answer.
    open spec fn answers(&self, name: Seq<char>, r: Content) -> bool {
        true
    }

    fn get_file_content(&self, file_name: &str) -> (r: Content)
        ensures
            self.answers(file_name@, r),
    ;
}

/// Where the content of a requested file name comes from.  A lookup never
/// leaves the configured source.
pub enum DataSource {
    /// The name is the path of the file.
    StdReadFile,
    /// The file is searched below each of these directories, in their order.
    Folders(Vec<String>),
    /// The file is an entry of this tar archive.
    Tar(Vec<u8>),
    /// The name is a key of this table.  Keys are meant to be distinct; the
    /// first entry under a key is the one that is used.
    FileMap(Vec<(String, SingleFileSource)>),
    /// The name is handed to a backend of the caller's own.
    Sync(Box<dyn SyncFolderSource>),
}

/// What the caller of a lookup has to do next.
pub enum Lookup<'a> {
    /// The lookup is complete.
    Done(Content),
    /// Read the whole file at `path`; its bytes, with `provenance`, are the
    /// content.
    ReadFile { path: String, provenance: Option<String> },
    /// Run the search; the file it finds and the directory it found it in
    /// are the content.
    Search(FolderSearch),
    /// Fetch the remote file through its cache; its bytes, with
    /// `provenance`, are the content.
    Remote { source: &'a HttpSource, cache: &'a FileCache, provenance: Option<String> },
}

/// The text that bytes decode to as UTF-8, with the replacement character in
/// place of each invalid sequence.
pub uninterp spec fn utf8_lossy(bytes: Seq<u8>) -> Seq<char>;

/// `String::from_utf8_lossy`: the result is a function of the bytes alone,
/// and bytes that are valid UTF-8 give the text they encode.  Of the text for
/// other bytes nothing more is claimed.
#[verifier::external_body]
fn decode_lossy(bytes: &Vec<u8>) -> (r: String)
    ensures
        r@ == utf8_lossy(bytes@),
        vstd::utf8::valid_utf8(bytes@) ==> r@ == vstd::utf8::decode_utf8(bytes@),
{
    String::from_utf8_lossy(bytes.as_slice()).into_owned()
}

/// The position of the first entry, from `from` on, under the key `name`.
pub open spec fn first_keyed(
    table: Seq<(String, SingleFileSource)>,
    name: Seq<char>,
    from: int,
) -> Option<int>
    decreases table.len() - from,
{
    if from < 0 || from >= table.len() {
        None
    } else if table[from].0@ == name {
        Some(from)
    } else {
        first_keyed(table, name, from + 1)
    }
}

/// No key occurs twice in the table.
pub open spec fn distinct_keys(table: Seq<(String, SingleFileSource)>) -> bool {
    forall|i: int, j: int|
        0 <= i < j < table.len() ==> (#[trigger] table[i]).0@ != (#[trigger] table[j]).0@
}

/// The position of the last entry before `upto` under the key `name`.
pub open spec fn last_keyed(
    entries: Seq<(String, SingleFileSource)>,
    name: Seq<char>,
    upto: int,
) -> Option<int>
    decreases upto,
{
    if upto <= 0 || upto > entries.len() {
        None
    } else if entries[upto - 1].0@ == name {
        Some(upto - 1)
    } else {
        last_keyed(entries, name, upto - 1)
    }
}

/// Under `name` the table holds what a map holds that was filled with the
/// entries from position `from` on, one after the other: the last of them
/// under that key, and nothing if there is none.
pub open spec fn holds_last(
    entries: Seq<(String, SingleFileSource)>,
    table: Seq<(String, SingleFileSource)>,
    from: int,
    name: Seq<char>,
) -> bool {
    match last_keyed(entries, name, entries.len() as int) {
        Some(j) if j >= from => first_keyed(table, name, 0) matches Some(k) && table[k]
            == entries[j],
        _ => first_keyed(table, name, 0) is None,
    }
}

/// The position of the first entry of the table under the key `name`.
pub fn find_key(table: &Vec<(String, SingleFileSource)>, name: &str) -> (r: Option<usize>)
    ensures
        match first_keyed(table@, name@, 0) {
            Some(k) => r == Some(k as usize) && 0 <= k < table.len(),
            None => r is None,
        },
{
    let mut i: usize = 0;
    while i < table.len()
        invariant
            i <= table.len(),
            first_keyed(table@, name@, 0) == first_keyed(table@, name@, i as int),
        decreases table.len() - i,
    {
        if table[i].0.as_str().eq(name) {
            return Some(i);
        }
        i += 1;
    }
    None
}

impl Default for DataSource {
    fn default() -> (r: Self)
        ensures
            r is StdReadFile,
    {
        DataSource::StdReadFile
    }
}

impl DataSource {
    /// The table of a `FileMap` has distinct keys.
    pub open spec fn well_formed(self) -> bool {
        self matches DataSource::FileMap(table) ==> distinct_keys(table@)
    }

    /// A table from a list of named sources, filled as a map is filled: of
    /// two entries under one key the later replaces the earlier.  The table
    /// has distinct keys.
    pub fn file_map(entries: Vec<(String, SingleFileSource)>) -> (r: DataSource)
        ensures
            r.well_formed(),
            r matches DataSource::FileMap(table) && forall|name: Seq<char>| #[trigger]
                holds_last(entries@, table@, 0, name),
    {
        let mut rest = entries;
        let mut table: Vec<(String, SingleFileSource)> = Vec::new();
        proof {
            assert forall|name: Seq<char>| #[trigger]
                holds_last(entries@, table@, rest.len() as int, name) by {
                lemma_last_keyed_bounds(entries@, name, entries@.len() as int);
            }
        }
        while rest.len() > 0
            invariant
                rest@ == entries@.subrange(0, rest.len() as int),
                rest.len() <= entries.len(),
                distinct_keys(table@),
                forall|name: Seq<char>| #[trigger]
                    holds_last(entries@, table@, rest.len() as int, name),
            decreases rest.len(),
        {
            let ghost before = table@;
            let ghost m = rest.len() as int;
            let entry = rest.pop().unwrap();
            assert(entry == entries@[m - 1]);
            let ghost key = entry.0@;
            proof {
                lemma_last_keyed_reaches(entries@, key, entries@.len() as int, m - 1);
                assert(holds_last(entries@, before, m, key));
            }
            if find_key(&table, entry.0.as_str()).is_none() {
                proof {
                    lemma_absent_key(before, key, 0);
                }
                let ghost added = entry;
                table.push(entry);
                proof {
                    assert(table@ == before.push(added));
                    assert forall|name: Seq<char>| #[trigger]
                        holds_last(entries@, table@, m - 1, name) by {
                        assert(holds_last(entries@, before, m, name));
                        lemma_last_keyed_bounds(entries@, name, entries@.len() as int);
                        lemma_first_keyed_bounds(before, name, 0);
                        lemma_first_keyed_push(before, added, name, 0);
                    }
                }
            } else {
                proof {
                    assert forall|name: Seq<char>| #[trigger]
                        holds_last(entries@, table@, m - 1, name) by {
                        assert(holds_last(entries@, before, m, name));
                        lemma_last_keyed_bounds(entries@, name, entries@.len() as int);
                    }
                }
            }
        }
        DataSource::FileMap(table)
    }

    /// `step` is the way to the content of `name` in this source.
    pub open spec fn resolved_by(self, name: Seq<char>, step: Lookup) -> bool {
        match self {
            DataSource::StdReadFile => step matches Lookup::ReadFile { path, provenance }
                && path@ == name && provenance is None,
            DataSource::Folders(dirs) => step matches Lookup::Search(search) && search.dirs@
                == dirs@ && search.file_name@ == name && search.next == 0,
            DataSource::Tar(tar_binary) => step matches Lookup::Done(content) && gives(
                content,
                lookup(tar_binary@, name),
            ),
            DataSource::FileMap(table) => match first_keyed(table@, name, 0) {
                None => step matches Lookup::Done(content) && content == Err::<
                    (Vec<u8>, Option<String>),
                    FetchError,
                >(FetchError::NF),
                Some(k) => match table@[k].1 {
                    SingleFileSource::Inline(bytes) => step matches Lookup::Done(Ok((b, p)))
                        && b@ == bytes@ && p is None,
                    SingleFileSource::FilePath(file) => step matches Lookup::ReadFile {
                        path,
                        provenance,
                    } && path@ == file@ && provenance.deep_view() == Some(file@),
                    SingleFileSource::Http(http_source, file_cache) => step matches Lookup::Remote {
                        source,
                        cache,
                        provenance,
                    } && *source == http_source && *cache == file_cache && provenance.deep_view()
                        == Some(http_source.url@),
                },
            },
            DataSource::Sync(backend) => step matches Lookup::Done(content) && backend.answers(
                name,
                content,
            ),
        }
    }

    /// Begins the lookup of `file_name`.
    ///
    /// An archive and a table of inline bytes answer at once.  A plain file,
    /// a file path in the table, a list of directories and a remote file name
    /// what the caller has to read, search or fetch.  A name that is not a
    /// key of the table is not found.
    pub fn get_file_content(&self, file_name: &str) -> (r: Lookup<'_>)
        ensures
            self.resolved_by(file_name@, r),
    {
        match self {
            DataSource::StdReadFile => Lookup::ReadFile {
                path: String::from_str(file_name),
                provenance: None,
            },
            DataSource::Folders(dirs) => Lookup::Search(FolderSearch::new(dirs, file_name)),
            DataSource::Tar(tar_binary) => Lookup::Done(get_file_from_tar(file_name, tar_binary)),
            DataSource::FileMap(table) => match find_key(table, file_name) {
                None => Lookup::Done(Err(FetchError::NF)),
                Some(i) => {
                    let single = &table[i].1;
                    let provenance = single.get_path();
                    match single.fetch() {
                        SourceStep::Ready(bytes) => Lookup::Done(Ok((bytes, provenance))),
                        SourceStep::ReadFile(path) => Lookup::ReadFile { path, provenance },
                        SourceStep::Remote(source, cache) => Lookup::Remote {
                            source,
                            cache,
                            provenance,
                        },
                    }
                },
            },
            DataSource::Sync(backend) => Lookup::Done(backend.get_file_content(file_name)),
        }
    }

    /// Appends the current working directory, handed in by the caller, to a
    /// list of directories.  Every other source is left as it is.
    pub fn insert_current_working_dir(&mut self, current_dir: String)
        ensures
            match *old(self) {
                DataSource::Folders(dirs) => *final(self) matches DataSource::Folders(
                    extended,
                ) && extended@ == dirs@.push(current_dir),
                _ => *final(self) == *old(self),
            },
            old(self).well_formed() ==> final(self).well_formed(),
    {
        match self {
            DataSource::Folders(dirs) => {
                dirs.push(current_dir);
            },
            _ => {},
        }
    }

    /// The content as text: the bytes decoded as UTF-8, invalid sequences
    /// replaced.  A failed lookup stays the failure it is.
    pub fn read_to_string(content: Content) -> (r: Result<String, FetchError>)
        ensures
            match content {
                Ok((bytes, _)) => r matches Ok(text) && text@ == utf8_lossy(bytes@) && (
                vstd::utf8::valid_utf8(bytes@) ==> text@ == vstd::utf8::decode_utf8(bytes@)),
                Err(e) => r == Err::<String, FetchError>(e),
            },
    {
        match content {
            Ok((bytes, _)) => Ok(decode_lossy(&bytes)),
            Err(e) => Err(e),
        }
    }
}

/// From `from` on, the first entry under the key of entry `k` is entry `k`.
proof fn lemma_first_keyed_from(table: Seq<(String, SingleFileSource)>, from: int, k: int)
    requires
        distinct_keys(table),
        0 <= from <= k < table.len(),
    ensures
        first_keyed(table, table[k].0@, from) == Some(k),
    decreases k - from,
{
    if from < k {
        lemma_first_keyed_from(table, from + 1, k);
    }
}

/// In a table with distinct keys the order of the entries does not matter:
/// each entry is the one that is found under its key, wherever it stands.
pub proof fn lemma_distinct_key_finds_its_entry(table: Seq<(String, SingleFileSource)>, k: int)
    requires
        distinct_keys(table),
        0 <= k < table.len(),
    ensures
        first_keyed(table, table[k].0@, 0) == Some(k),
{
    lemma_first_keyed_from(table, 0, k);
}

/// From `from` on, the table has no entry under `name`.
proof fn lemma_none_keyed_from(table: Seq<(String, SingleFileSource)>, name: Seq<char>, from: int)
    requires
        0 <= from,
        forall|i: int| 0 <= i < table.len() ==> (#[trigger] table[i]).0@ != name,
    ensures
        first_keyed(table, name, from) is None,
    decreases table.len() - from,
{
    if from < table.len() {
        lemma_none_keyed_from(table, name, from + 1);
    }
}

/// A name under which the table has no entry is not found.
pub proof fn lemma_missing_key_is_not_found(
    table: Seq<(String, SingleFileSource)>,
    name: Seq<char>,
)
    requires
        forall|i: int| 0 <= i < table.len() ==> (#[trigger] table[i]).0@ != name,
    ensures
        first_keyed(table, name, 0) is None,
{
    lemma_none_keyed_from(table, name, 0);
}

/// A lookup in a list of directories, where the file exists below directory
/// `k` and below none before it, is a search that reads the file from
/// directory `k` and reports that directory.
pub proof fn lemma_folders_find_first_holder(
    source: DataSource,
    name: Seq<char>,
    step: Lookup,
    present: Set<Seq<char>>,
    k: int,
)
    requires
        source is Folders,
        source.resolved_by(name, step),
        0 <= k < source->Folders_0.len(),
        present.contains(joined(source->Folders_0[k]@, name)),
        forall|i: int|
            0 <= i < k ==> !present.contains(#[trigger] joined(source->Folders_0[i]@, name)),
    ensures
        step matches Lookup::Search(search) && search.outcome(present) == (SearchOutcome::Read {
            path: joined(source->Folders_0[k]@, name),
            provenance: source->Folders_0[k]@,
        }),
{
    let dirs = source->Folders_0;
    let search = step->Search_0;
    assert(search.dirs.deep_view() == dirs.deep_view());
    assert forall|i: int| 0 <= i < dirs.len() implies (#[trigger] dirs.deep_view()[i])
        == dirs[i]@ by {}
    lemma_first_holding_directory_wins(dirs.deep_view(), name, present, k);
}

/// A lookup in a list of directories of which none holds the file is a
/// search that fails with exactly the configured list.
pub proof fn lemma_folders_miss_lists_all(
    source: DataSource,
    name: Seq<char>,
    step: Lookup,
    present: Set<Seq<char>>,
)
    requires
        source is Folders,
        source.resolved_by(name, step),
        forall|i: int|
            0 <= i < source->Folders_0.len() ==> !present.contains(
                #[trigger] joined(source->Folders_0[i]@, name),
            ),
    ensures
        step matches Lookup::Search(search) && search.outcome(present) == (SearchOutcome::Missing {
            tried: source->Folders_0.deep_view(),
        }),
{
    let dirs = source->Folders_0;
    let search = step->Search_0;
    assert(search.dirs.deep_view() == dirs.deep_view());
    assert forall|i: int| 0 <= i < dirs.len() implies (#[trigger] dirs.deep_view()[i])
        == dirs[i]@ by {}
    lemma_missing_everywhere(dirs.deep_view(), name, present);
}

/// The last entry under a key lies before `upto` and carries the key.
proof fn lemma_last_keyed_bounds(
    entries: Seq<(String, SingleFileSource)>,
    name: Seq<char>,
    upto: int,
)
    ensures
        last_keyed(entries, name, upto) matches Some(j) ==> 0 <= j < upto && j < entries.len()
            && entries[j].0@ == name,
    decreases upto,
{
    if 0 < upto <= entries.len() && entries[upto - 1].0@ != name {
        lemma_last_keyed_bounds(entries, name, upto - 1);
    }
}

/// The last entry under a key lies at or after every entry under that key.
proof fn lemma_last_keyed_reaches(
    entries: Seq<(String, SingleFileSource)>,
    name: Seq<char>,
    upto: int,
    i: int,
)
    requires
        0 <= i < upto <= entries.len(),
        entries[i].0@ == name,
    ensures
        last_keyed(entries, name, upto) matches Some(j) && i <= j,
    decreases upto,
{
    if entries[upto - 1].0@ != name {
        lemma_last_keyed_reaches(entries, name, upto - 1, i);
    }
}

/// The first entry under a key lies in the table, at or after `from`, and
/// carries the key.
proof fn lemma_first_keyed_bounds(
    table: Seq<(String, SingleFileSource)>,
    name: Seq<char>,
    from: int,
)
    ensures
        first_keyed(table, name, from) matches Some(k) ==> from <= k < table.len() && table[k].0@
            == name,
    decreases table.len() - from,
{
    if 0 <= from < table.len() && table[from].0@ != name {
        lemma_first_keyed_bounds(table, name, from + 1);
    }
}

/// A table without an entry under a key, from `from` on, has no such key
/// there.
proof fn lemma_absent_key(table: Seq<(String, SingleFileSource)>, name: Seq<char>, from: int)
    requires
        0 <= from,
        first_keyed(table, name, from) is None,
    ensures
        forall|k: int| from <= k < table.len() ==> (#[trigger] table[k]).0@ != name,
    decreases table.len() - from,
{
    if from < table.len() {
        lemma_absent_key(table, name, from + 1);
    }
}

/// What appending an entry does to a lookup: under another key nothing,
/// under its own key it is found at the end if no entry was found before.
proof fn lemma_first_keyed_push(
    table: Seq<(String, SingleFileSource)>,
    entry: (String, SingleFileSource),
    name: Seq<char>,
    from: int,
)
    requires
        0 <= from <= table.len(),
    ensures
        first_keyed(table, name, from) is Some ==> first_keyed(table.push(entry), name, from)
            == first_keyed(table, name, from),
        first_keyed(table, name, from) is None && entry.0@ != name ==> first_keyed(
            table.push(entry),
            name,
            from,
        ) is None,
        first_keyed(table, name, from) is None && entry.0@ == name ==> first_keyed(
            table.push(entry),
            name,
            from,
        ) == Some(table.len() as int),
    decreases table.len() - from,
{
    if from < table.len() {
        assert(table.push(entry)[from] == table[from]);
        lemma_first_keyed_push(table, entry, name, from + 1);
    } else {
        assert(table.push(entry)[from] == entry);
        assert(first_keyed(table.push(entry), name, from + 1) is None);
    }
}

} // verus!
