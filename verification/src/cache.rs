//! The cache gate: whether a stored copy of a remote file may still be used,
//! and what a fetch has to do with it.

use vstd::prelude::*;
use crate::clock::{elapsed_nanos, Timestamp, NANOS_PER_SEC};
use crate::error::FetchError;

verus! {

/// Where a fetched copy is kept, and for how long it may be used.
///
/// Without a path nothing is cached.  Without an interval a stored copy never
/// expires.
#[derive(Debug, Clone)]
pub struct FileCache {
    pub update_interval_seconds: Option<u64>,
    pub cache_file_path: Option<String>,
}

/// What the file system reports of the cache file.
#[derive(Debug, Clone)]
pub enum CacheFile {
    /// The test for existence itself failed.
    Inaccessible(String),
    /// There is no such file.
    Absent,
    /// The file exists, but its modification time could not be read.
    NoMetadata(String),
    /// The file exists and was last modified at `at`; the clock, read after
    /// that, shows `now`.
    Modified { at: Timestamp, now: Timestamp },
}

/// What a fetch through the cache does first.
#[derive(Debug, Clone)]
pub enum CachePlan {
    /// The stored copy is fresh: read this file and return its bytes.  A
    /// failure to read it is the fetch's failure.
    Read(String),
    /// Fetch from the source.  If a path is given, write the fetched bytes to
    /// it afterwards; a failure to write changes nothing of the result.
    Fetch(Option<String>),
}

impl FileCache {
    /// The state of the stored copy: `None` where there is none, `Some(false)`
    /// where it is fresh, `Some(true)` where it has expired.  A copy is fresh
    /// exactly as long as the time since its last modification is not more
    /// than the interval.
    pub open spec fn timeout(self, file: CacheFile) -> Result<Option<bool>, FetchError> {
        if self.cache_file_path.is_none() {
            Ok(None)
        } else {
            match file {
                CacheFile::Inaccessible(why) => Err(FetchError::I(why)),
                CacheFile::Absent => Ok(None),
                CacheFile::NoMetadata(why) => match self.update_interval_seconds {
                    None => Ok(Some(false)),
                    Some(_) => Err(FetchError::I(why)),
                },
                CacheFile::Modified { at, now } => match self.update_interval_seconds {
                    None => Ok(Some(false)),
                    Some(interval) => if at.total_nanos() > now.total_nanos() {
                        Err(FetchError::T)
                    } else {
                        Ok(Some(now.total_nanos() - at.total_nanos() > interval * NANOS_PER_SEC))
                    },
                },
            }
        }
    }

    /// What a fetch through this cache does first.
    pub open spec fn plan(self, file: CacheFile) -> Result<CachePlan, FetchError> {
        match self.timeout(file) {
            Err(e) => Err(e),
            Ok(Some(false)) => Ok(CachePlan::Read(self.cache_file_path.unwrap())),
            Ok(_) => Ok(CachePlan::Fetch(self.cache_file_path)),
        }
    }

    /// The path of the cache file.  Asking for it where none is configured is
    /// the error `NC`.
    pub fn cache_file(&self) -> (r: Result<String, FetchError>)
        ensures
            r == match self.cache_file_path {
                Some(path) => Ok::<String, FetchError>(path),
                None => Err::<String, FetchError>(FetchError::NC),
            },
    {
        match &self.cache_file_path {
            Some(path) => Ok(path.clone()),
            None => Err(FetchError::NC),
        }
    }

    /// What reading the stored copy gives: its bytes, or the file system's
    /// report as the failure of the fetch.  A failure to read is not taken for
    /// a missing copy.
    pub fn read_cache_file(&self, outcome: Result<Vec<u8>, String>) -> (r: Result<
        Vec<u8>,
        FetchError,
    >)
        ensures
            r == match (self.cache_file_path, outcome) {
                (None, _) => Err::<Vec<u8>, FetchError>(FetchError::NC),
                (Some(_), Ok(bytes)) => Ok::<Vec<u8>, FetchError>(bytes),
                (Some(_), Err(why)) => Err::<Vec<u8>, FetchError>(FetchError::I(why)),
            },
    {
        if self.cache_file_path.is_none() {
            return Err(FetchError::NC);
        }
        match outcome {
            Ok(bytes) => Ok(bytes),
            Err(why) => Err(FetchError::I(why)),
        }
    }

    /// Whether the fetched bytes are stored now: a cache file is configured
    /// and writing it succeeded.  A failure to write is no failure of the
    /// fetch.
    pub fn write_cache_file(&self, outcome: &Result<(), String>) -> (r: bool)
        ensures
            r == (self.cache_file_path.is_some() && outcome is Ok),
    {
        self.cache_file_path.is_some() && outcome.is_ok()
    }

    /// Whether the stored copy has expired, given what the file system and
    /// the clock report of the cache file.
    pub fn is_cache_timeout(&self, file: &CacheFile) -> (r: Result<Option<bool>, FetchError>)
        ensures
            r == self.timeout(*file),
    {
        if self.cache_file_path.is_none() {
            return Ok(None);
        }
        match file {
            CacheFile::Inaccessible(why) => Err(FetchError::I(why.clone())),
            CacheFile::Absent => Ok(None),
            CacheFile::NoMetadata(why) => match self.update_interval_seconds {
                None => Ok(Some(false)),
                Some(_) => Err(FetchError::I(why.clone())),
            },
            CacheFile::Modified { at, now } => match self.update_interval_seconds {
                None => Ok(Some(false)),
                Some(interval) => match elapsed_nanos(now, at) {
                    Ok(elapsed) => Ok(Some(elapsed > (interval as u128) * 1_000_000_000)),
                    Err(e) => Err(e),
                },
            },
        }
    }
}

/// The first step of a fetch through the cache: read the stored copy where it
/// is fresh, else fetch from the source and store the result where a cache
/// file is configured.
pub fn fetch_with_cache(fc: &FileCache, file: &CacheFile) -> (r: Result<CachePlan, FetchError>)
    ensures
        r == fc.plan(*file),
{
    match fc.is_cache_timeout(file) {
        Err(e) => Err(e),
        Ok(Some(false)) => match &fc.cache_file_path {
            Some(path) => Ok(CachePlan::Read(path.clone())),
            None => Ok(CachePlan::Fetch(None)),
        },
        Ok(_) => Ok(CachePlan::Fetch(fc.cache_file_path.clone())),
    }
}

/// The file that the bytes are written to after the fetch that a plan asked
/// for: the plan's file if the fetch succeeded, none if it failed or the plan
/// names none.
pub open spec fn written_after(plan: CachePlan, fetched: Result<Vec<u8>, FetchError>) -> Option<
    String,
> {
    match (plan, fetched) {
        (CachePlan::Fetch(Some(path)), Ok(_)) => Some(path),
        _ => None,
    }
}

/// The end of a fetch through the cache, given what the fetch from the source
/// gave: its bytes or its error are the result as they are, and the bytes
/// are to be written to the returned file, if one is returned.  Nothing is
/// written after a failed fetch, and whether the write succeeds changes
/// nothing of the result.
pub fn finish_fetch(plan: CachePlan, fetched: Result<Vec<u8>, FetchError>) -> (r: (
    Result<Vec<u8>, FetchError>,
    Option<String>,
))
    ensures
        r.0 == fetched,
        r.1 == written_after(plan, fetched),
{
    let write_to = match (plan, &fetched) {
        (CachePlan::Fetch(Some(path)), Ok(_)) => Some(path),
        _ => None,
    };
    (fetched, write_to)
}

/// A copy whose age is exactly the interval is still fresh.
pub proof fn lemma_fresh_at_interval(fc: FileCache, at: Timestamp, now: Timestamp, n: u64)
    requires
        fc.cache_file_path.is_some(),
        fc.update_interval_seconds == Some(n),
        now.total_nanos() == at.total_nanos() + n * NANOS_PER_SEC,
    ensures
        fc.timeout(CacheFile::Modified { at, now }) == Ok::<Option<bool>, FetchError>(Some(false)),
        fc.plan(CacheFile::Modified { at, now }) == Ok::<CachePlan, FetchError>(
            CachePlan::Read(fc.cache_file_path.unwrap()),
        ),
{
}

/// A copy that is older than the interval has expired, be it by a whole
/// second or by a single nanosecond.
pub proof fn lemma_stale_after_interval(fc: FileCache, at: Timestamp, now: Timestamp, n: u64)
    requires
        fc.cache_file_path.is_some(),
        fc.update_interval_seconds == Some(n),
        now.total_nanos() > at.total_nanos() + n * NANOS_PER_SEC,
    ensures
        fc.timeout(CacheFile::Modified { at, now }) == Ok::<Option<bool>, FetchError>(Some(true)),
        fc.plan(CacheFile::Modified { at, now }) == Ok::<CachePlan, FetchError>(
            CachePlan::Fetch(fc.cache_file_path),
        ),
{
}

/// A fetch from the source names the cache file as the place to store the
/// bytes, and they are stored there if the fetch succeeds; as long as the
/// time since that file was written stays within the interval, the next fetch
/// reads that same file and does not go to the source.
pub proof fn lemma_stored_copy_is_read_back(
    fc: FileCache,
    before: CacheFile,
    bytes: Vec<u8>,
    written: Timestamp,
    second: Timestamp,
)
    requires
        fc.cache_file_path.is_some(),
        fc.plan(before) is Ok,
        fc.plan(before).unwrap() is Fetch,
        written.total_nanos() <= second.total_nanos(),
        fc.update_interval_seconds matches Some(n) ==> second.total_nanos()
            - written.total_nanos() <= n * NANOS_PER_SEC,
    ensures
        written_after(fc.plan(before).unwrap(), Ok(bytes)) == fc.cache_file_path,
        fc.plan(CacheFile::Modified { at: written, now: second }) == Ok::<CachePlan, FetchError>(
            CachePlan::Read(fc.cache_file_path.unwrap()),
        ),
{
}

} // verus!
