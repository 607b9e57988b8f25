//! Codebase indexing library: configuration, file chunking, blob naming,
//! upload batching and the decision logic of indexing and search.

pub mod config;
pub mod hashing;
pub mod index;
pub mod service;
pub mod strategy;
pub mod text;

pub use config::{get_upload_strategy, CliOverrides, Config, UploadStrategy};
pub use index::{Blob, IndexManager, IndexResult, IndexStats};

use vstd::prelude::*;

verus! {

/// User-Agent header value sent with every request to the indexing service.
pub const USER_AGENT: &'static str = "augment.cli/0.17.0";

} // verus!
