//! Lookup of one entry in an in-memory tar archive.
//!
//! The archive is parsed by the `tar` crate.  The paths of its entries are
//! listed first; the choice of the entry is made here; only the chosen entry
//! is read.

use std::io::Read;
use vstd::prelude::*;
use crate::error::FetchError;

verus! {

/// The paths of the entries of an archive in archive order.
#[derive(Debug)]
pub struct ArchiveListing {
    /// The path of each entry, where it is valid UTF-8, up to the end of the
    /// archive or to the first header that could not be parsed.
    pub paths: Vec<Option<String>>,
    /// The parser's report, if it stopped at a malformed header.
    pub damage: Option<String>,
}

/// A listing as plain values.
pub ghost struct ListingView {
    pub paths: Seq<Option<Seq<char>>>,
    pub damage: Option<Seq<char>>,
}

impl View for ArchiveListing {
    type V = ListingView;

    open spec fn view(&self) -> ListingView {
        ListingView { paths: self.paths.deep_view(), damage: self.damage.deep_view() }
    }
}

/// What reading one entry gave, as plain values: nothing if the archive has
/// no such entry, else the content or the report of the failure.
pub open spec fn read_view(read: Option<Result<Vec<u8>, String>>) -> Option<
    Result<Seq<u8>, Seq<char>>,
> {
    match read {
        None => None,
        Some(Ok(bytes)) => Some(Ok(bytes@)),
        Some(Err(why)) => Some(Err(why@)),
    }
}

/// The paths that the `tar` crate reads from an archive held in memory.
pub uninterp spec fn archive_listing(tar_binary: Seq<u8>) -> ListingView;

/// What the `tar` crate reads as the content of the entry at a position of
/// an archive held in memory.
pub uninterp spec fn archive_entry(tar_binary: Seq<u8>, index: int) -> Option<
    Result<Seq<u8>, Seq<char>>,
>;

/// `tar::Archive::entries` over the buffer, walked to its end, with
/// `Entry::path` of each entry; no entry's content is read.  The walk ends
/// with the archive or with the first error of the iterator.  The result is
/// a function of the buffer alone; nothing more is claimed of it.
#[verifier::external_body]
fn list_archive(tar_binary: &Vec<u8>) -> (r: ArchiveListing)
    ensures
        r@ == archive_listing(tar_binary@),
{
    let mut archive = tar::Archive::new(std::io::Cursor::new(tar_binary));
    let mut listing = ArchiveListing { paths: Vec::new(), damage: None };
    for entry in archive.entries().into_iter().flatten() {
        match entry {
            Ok(member) => {
                let path = member.path().ok().and_then(|p| p.to_str().map(String::from));
                listing.paths.push(path);
            },
            Err(e) => listing.damage = Some(e.to_string()),
        }
    }
    listing
}

/// `tar::Archive::entries` over the buffer, advanced to the entry at
/// `index`, and that entry read to its end.  The result is a function of the
/// buffer and the position alone; nothing more is claimed of it.
#[verifier::external_body]
fn read_entry(tar_binary: &Vec<u8>, index: usize) -> (r: Option<Result<Vec<u8>, String>>)
    ensures
        read_view(r) == archive_entry(tar_binary@, index as int),
{
    let mut archive = tar::Archive::new(std::io::Cursor::new(tar_binary));
    let mut member = match archive.entries().ok()?.nth(index)? {
        Ok(member) => member,
        Err(e) => return Some(Err(e.to_string())),
    };
    let mut data = Vec::new();
    let read = member.read_to_end(&mut data);
    Some(read.map(|_| data).map_err(|e| e.to_string()))
}

/// The position of the first entry, from `from` on, whose path is `name`.
pub open spec fn first_named(paths: Seq<Option<Seq<char>>>, name: Seq<char>, from: int) -> Option<
    int,
>
    decreases paths.len() - from,
{
    if from < 0 || from >= paths.len() {
        None
    } else if paths[from] == Some(name) {
        Some(from)
    } else {
        first_named(paths, name, from + 1)
    }
}

/// What a lookup gives, as plain values: the content and the provenance, or
/// the error.
pub ghost enum LookupView {
    Content { bytes: Seq<u8>, provenance: Option<Seq<char>> },
    Unreadable { why: Seq<char> },
    NotFound,
}

/// `r` is the result that `expected` describes.
pub open spec fn gives(r: Result<(Vec<u8>, Option<String>), FetchError>, expected: LookupView) -> bool {
    match expected {
        LookupView::Content { bytes, provenance } => r matches Ok((b, p)) && b@ == bytes
            && p.deep_view() == provenance,
        LookupView::Unreadable { why } => r matches Err(FetchError::I(w)) && w@ == why,
        LookupView::NotFound => r == Err::<(Vec<u8>, Option<String>), FetchError>(FetchError::NF),
    }
}

/// What the chosen entry gives: its content with its own path, which is the
/// requested name, as provenance; the failure to read it; or nothing, if the
/// archive has no entry there.
pub open spec fn content_of(name: Seq<char>, read: Option<Result<Seq<u8>, Seq<char>>>) -> LookupView {
    match read {
        Some(Ok(bytes)) => LookupView::Content { bytes, provenance: Some(name) },
        Some(Err(why)) => LookupView::Unreadable { why },
        None => LookupView::NotFound,
    }
}

/// The result of looking `name` up in the archive `tar_binary`.  The first
/// entry with exactly that path is chosen and read.  Where there is none, a
/// damaged archive is a local failure, an intact one simply does not hold the
/// name.
pub open spec fn lookup(tar_binary: Seq<u8>, name: Seq<char>) -> LookupView {
    let listing = archive_listing(tar_binary);
    match first_named(listing.paths, name, 0) {
        Some(k) => content_of(name, archive_entry(tar_binary, k)),
        None => match listing.damage {
            Some(why) => LookupView::Unreadable { why },
            None => LookupView::NotFound,
        },
    }
}

/// Chooses the entry for `file_name`: the position of the first entry with
/// exactly that path.  Without such an entry the name is not found, unless
/// the listing ended at a malformed header: that is a local failure.
pub fn find_member(file_name: &str, listing: &ArchiveListing) -> (r: Result<usize, FetchError>)
    ensures
        match first_named(listing@.paths, file_name@, 0) {
            Some(k) => r == Ok::<usize, FetchError>(k as usize) && 0 <= k < listing.paths.len(),
            None => match listing.damage {
                Some(why) => r == Err::<usize, FetchError>(FetchError::I(why)),
                None => r == Err::<usize, FetchError>(FetchError::NF),
            },
        },
{
    let mut i: usize = 0;
    while i < listing.paths.len()
        invariant
            i <= listing.paths.len(),
            first_named(listing@.paths, file_name@, 0) == first_named(
                listing@.paths,
                file_name@,
                i as int,
            ),
        decreases listing.paths.len() - i,
    {
        assert(listing@.paths[i as int] == listing.paths[i as int].deep_view());
        let hit = match &listing.paths[i] {
            Some(path) => path.as_str().eq(file_name),
            None => false,
        };
        if hit {
            return Ok(i);
        }
        i += 1;
    }
    match &listing.damage {
        Some(why) => Err(FetchError::I(why.clone())),
        None => Err(FetchError::NF),
    }
}

/// The content of the entry that was chosen for `file_name`, given what
/// reading it gave.
pub fn member_content(file_name: &str, read: Option<Result<Vec<u8>, String>>) -> (r: Result<
    (Vec<u8>, Option<String>),
    FetchError,
>)
    ensures
        gives(r, content_of(file_name@, read_view(read))),
{
    match read {
        Some(Ok(bytes)) => Ok((bytes, Some(file_name.to_owned()))),
        Some(Err(why)) => Err(FetchError::I(why)),
        None => Err(FetchError::NF),
    }
}

/// Looks `file_name_in_tar` up in the archive `tar_binary`: the content of
/// the first entry with exactly that path, and that path as provenance.
pub fn get_file_from_tar(file_name_in_tar: &str, tar_binary: &Vec<u8>) -> (r: Result<
    (Vec<u8>, Option<String>),
    FetchError,
>)
    ensures
        gives(r, lookup(tar_binary@, file_name_in_tar@)),
{
    let listing = list_archive(tar_binary);
    match find_member(file_name_in_tar, &listing) {
        Ok(index) => member_content(file_name_in_tar, read_entry(tar_binary, index)),
        Err(FetchError::I(why)) => Err(FetchError::I(why)),
        Err(_) => Err(FetchError::NF),
    }
}

/// From `from` on, the first entry with the path `name` is entry `k`.
proof fn lemma_first_named_from(paths: Seq<Option<Seq<char>>>, name: Seq<char>, from: int, k: int)
    requires
        0 <= from <= k < paths.len(),
        paths[k] == Some(name),
        forall|i: int| from <= i < k ==> (#[trigger] paths[i]) != Some(name),
    ensures
        first_named(paths, name, from) == Some(k),
    decreases k - from,
{
    if from < k {
        lemma_first_named_from(paths, name, from + 1, k);
    }
}

/// From `from` on, no entry has the path `name`.
proof fn lemma_none_named_from(paths: Seq<Option<Seq<char>>>, name: Seq<char>, from: int)
    requires
        0 <= from,
        forall|i: int| from <= i < paths.len() ==> (#[trigger] paths[i]) != Some(name),
    ensures
        first_named(paths, name, from) is None,
    decreases paths.len() - from,
{
    if from < paths.len() {
        lemma_none_named_from(paths, name, from + 1);
    }
}

/// The first entry with the path wins: a lookup gives the content of entry
/// `k`, and the path as provenance, if entry `k` has the path and no entry
/// before it has, whether or not later entries carry the same path.
pub proof fn lemma_first_entry_wins(tar_binary: Seq<u8>, name: Seq<char>, k: int, bytes: Seq<u8>)
    requires
        0 <= k < archive_listing(tar_binary).paths.len(),
        archive_listing(tar_binary).paths[k] == Some(name),
        forall|i: int|
            0 <= i < k ==> (#[trigger] archive_listing(tar_binary).paths[i]) != Some(name),
        archive_entry(tar_binary, k) == Some(Ok::<Seq<u8>, Seq<char>>(bytes)),
    ensures
        lookup(tar_binary, name) == (LookupView::Content { bytes, provenance: Some(name) }),
{
    lemma_first_named_from(archive_listing(tar_binary).paths, name, 0, k);
}

/// A name that no entry carries is not found in an intact archive.
pub proof fn lemma_unlisted_name_is_not_found(tar_binary: Seq<u8>, name: Seq<char>)
    requires
        archive_listing(tar_binary).damage is None,
        forall|i: int|
            0 <= i < archive_listing(tar_binary).paths.len() ==> (#[trigger] archive_listing(
                tar_binary,
            ).paths[i]) != Some(name),
    ensures
        lookup(tar_binary, name) == LookupView::NotFound,
{
    lemma_none_named_from(archive_listing(tar_binary).paths, name, 0);
}

} // verus!
