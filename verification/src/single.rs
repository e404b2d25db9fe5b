//! A single named source of bytes.

use vstd::prelude::*;
use crate::cache::FileCache;
use crate::http::HttpSource;

verus! {

/// The path or address that a source declares for itself, if it has one.
pub trait GetPath {
    /// A source declares no path unless it says otherwise.
    fn get_path(&self) -> (r: Option<String>)
        default_ensures
            r is None,
    {
        None
    }
}

/// One source of bytes: a remote file with its cache, a local file, or the
/// bytes themselves.
#[derive(Debug, Clone)]
pub enum SingleFileSource {
    Http(HttpSource, FileCache),
    FilePath(String),
    Inline(Vec<u8>),
}

/// What the caller has to do to get the bytes of a source.
#[derive(Debug)]
pub enum SourceStep<'a> {
    /// The bytes are at hand.
    Ready(Vec<u8>),
    /// Read the whole file at this path.
    ReadFile(String),
    /// Fetch the remote file through its cache.
    Remote(&'a HttpSource, &'a FileCache),
}

impl Default for SingleFileSource {
    fn default() -> (r: Self)
        ensures
            r matches SingleFileSource::Inline(bytes) && bytes@ == Seq::<u8>::empty(),
    {
        SingleFileSource::Inline(Vec::new())
    }
}

impl GetPath for SingleFileSource {
    /// The address of a remote file, the path of a local one; inline bytes
    /// have none.
    fn get_path(&self) -> (r: Option<String>)
        ensures
            r.deep_view() == self.declared_path(),
    {
        match self {
            SingleFileSource::Http(http_source, _) => Some(http_source.url.clone()),
            SingleFileSource::FilePath(path) => Some(path.clone()),
            SingleFileSource::Inline(_) => None,
        }
    }
}

impl SingleFileSource {
    /// The path or address that the source declares for itself.
    pub open spec fn declared_path(self) -> Option<Seq<char>> {
        match self {
            SingleFileSource::Http(http_source, _) => Some(http_source.url@),
            SingleFileSource::FilePath(path) => Some(path@),
            SingleFileSource::Inline(_) => None,
        }
    }

    /// `step` is the way to the bytes of this source.
    pub open spec fn fetched_by(self, step: SourceStep) -> bool {
        match self {
            SingleFileSource::Http(http_source, cache) => step matches SourceStep::Remote(h, c)
                && *h == http_source && *c == cache,
            SingleFileSource::FilePath(path) => step matches SourceStep::ReadFile(p) && p@
                == path@,
            SingleFileSource::Inline(bytes) => step matches SourceStep::Ready(b) && b@ == bytes@,
        }
    }

    /// The way to the bytes: inline bytes are handed out as they are, a file
    /// path is to be read, a remote file is to be fetched through its cache.
    pub fn fetch(&self) -> (r: SourceStep<'_>)
        ensures
            self.fetched_by(r),
    {
        match self {
            SingleFileSource::Http(http_source, cache) => SourceStep::Remote(http_source, cache),
            SingleFileSource::FilePath(path) => SourceStep::ReadFile(path.clone()),
            SingleFileSource::Inline(bytes) => SourceStep::Ready(bytes.clone()),
        }
    }
}

} // verus!
