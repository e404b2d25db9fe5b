//! Resolution of a logical file name to bytes from interchangeable backends:
//! a list of directories, an in-memory tar archive, a table of named sources,
//! or a remote endpoint with an on-disk cache.
//!
//! The crate decides; it performs no file or network access itself.  Each
//! operation that needs the outside world is a small state machine: the
//! library names the next action, the caller performs it and hands the
//! outcome back.

pub mod archive;
pub mod cache;
pub mod clock;
pub mod error;
pub mod file_server;
pub mod folders;
pub mod http;
pub mod single;
pub mod source;
pub mod text;

pub use crate::archive::get_file_from_tar;
pub use crate::cache::{fetch_with_cache, CacheFile, CachePlan, FileCache};
pub use crate::clock::Timestamp;
pub use crate::error::FetchError;
pub use crate::http::HttpSource;
pub use crate::single::{GetPath, SingleFileSource};
pub use crate::source::{DataSource, Lookup, SyncFolderSource};
