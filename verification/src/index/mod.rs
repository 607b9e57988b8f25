//! Indexing: local index data, blob construction, the steps of an indexing
//! run and upload decisions.

pub mod decode;
pub mod flow;
pub mod manager;
pub mod pattern;
pub mod search;
pub mod upload;

pub use manager::{
    build_batches, split_content, Blob, FileEntry, IndexData, IndexEntries, IndexManager,
    IndexResult, IndexStats,
};
