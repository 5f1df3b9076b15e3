//! Line-oriented substring search over a file or a directory tree.
//!
//! The library holds the decisions of the search engine: the matcher, the
//! distributor that cuts a stream of lines into bounded batches, the worker
//! step that matches one batch, the aggregation of worker results, and the
//! per-directory aggregation that records failed entries and goes on.
//! Reading files and running threads is left to the caller.
pub mod matcher;
pub mod model;
pub mod config;
pub mod search;
pub mod chunker;
pub mod laws;

pub use chunker::Chunker;
pub use config::{Config, FindAction, SearchError, DEFAULT_CHUNK_SIZE, DEFAULT_PARALLELISM};
pub use search::{merge_results, Entry, Report, Search, Target};
