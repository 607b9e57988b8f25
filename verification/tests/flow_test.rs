//! Tests for the steps of an indexing run.

use ace_tool::index::flow::{
    assemble_index, finish_file, index_outcome, no_files_processed_result, no_text_files_result,
    plan_after_verify, plan_file, select_previous_index, FilePlan, MetadataOutcome, ReadOutcome,
};
use ace_tool::index::manager::{
    preserve_old, process_new_content, ProcessedFile, ProcessedResult, CURRENT_INDEX_VERSION,
};
use ace_tool::index::{FileEntry, IndexData, IndexEntries, IndexManager};

fn entry(secs: u64, nanos: u32, size: u64, hashes: &[&str]) -> FileEntry {
    FileEntry {
        mtime_secs: secs,
        mtime_nanos: nanos,
        size,
        blob_hashes: hashes.iter().map(|h| h.to_string()).collect(),
    }
}

fn index_with(path: &str, e: FileEntry, session: Option<&str>) -> IndexData {
    let mut entries = IndexEntries::new();
    entries.insert(path.to_string(), e);
    IndexData { version: 2, config_hash: "h".to_string(), session_id: session.map(|s| s.to_string()), entries }
}

fn found(size: u64, secs: u64, nanos: u32) -> MetadataOutcome {
    MetadataOutcome::Found { size, mtime: Some((secs, nanos)) }
}

#[test]
fn previous_index_by_session() {
    let same = select_previous_index(false, index_with("a", entry(1, 1, 1, &["x"]), Some("s1")), "s1");
    assert_eq!(same.entries.len(), 1);
    let none = select_previous_index(false, index_with("a", entry(1, 1, 1, &["x"]), None), "s1");
    assert_eq!(none.entries.len(), 1);
    let other = select_previous_index(false, index_with("a", entry(1, 1, 1, &["x"]), Some("s0")), "s1");
    assert!(other.entries.is_empty());
    assert_eq!(other.version, 0);
    let forced = select_previous_index(true, index_with("a", entry(1, 1, 1, &["x"]), Some("s1")), "s1");
    assert!(forced.entries.is_empty());
    assert!(forced.session_id.is_none());
}

#[test]
fn plan_missing_and_large_files() {
    let old = index_with("a.rs", entry(10, 5, 100, &["x"]), None);
    assert!(matches!(plan_file(&old, "a.rs", MetadataOutcome::NotFound), FilePlan::Finished(None)));
    assert!(matches!(plan_file(&old, "a.rs", found(200 * 1024, 10, 5)), FilePlan::Finished(None)));
    // Exactly the limit is still read.
    assert!(matches!(plan_file(&old, "b.rs", found(128 * 1024, 10, 5)), FilePlan::ReadContent { .. }));
}

#[test]
fn plan_unreadable_keeps_old_entry() {
    let old = index_with("a.rs", entry(10, 5, 100, &["x"]), None);
    match plan_file(&old, "a.rs", MetadataOutcome::Unreadable) {
        FilePlan::Finished(Some(p)) => {
            assert_eq!(p.rel_path, "a.rs");
            assert!(matches!(p.result, ProcessedResult::Cached { ref entry } if entry.mtime_secs == 10));
        },
        _ => panic!("expected the previous entry"),
    }
    assert!(matches!(plan_file(&old, "b.rs", MetadataOutcome::Unreadable), FilePlan::Finished(None)));
    // Without a modification time the previous entry is kept as well.
    let no_time = MetadataOutcome::Found { size: 10, mtime: None };
    assert!(matches!(plan_file(&old, "a.rs", no_time), FilePlan::Finished(Some(_))));
}

#[test]
fn plan_cache_hit_verify_and_miss() {
    let old = index_with("a.rs", entry(10, 5, 100, &["x"]), None);
    assert!(matches!(plan_file(&old, "a.rs", found(100, 10, 5)), FilePlan::Finished(Some(_))));
    assert!(matches!(
        plan_file(&old, "a.rs", found(100, 10, 6)),
        FilePlan::ReadContent { mtime_secs: 10, mtime_nanos: 6, size: 100 }
    ));
    assert!(matches!(plan_file(&old, "a.rs", found(101, 10, 5)), FilePlan::ReadContent { .. }));
    assert!(matches!(plan_file(&old, "a.rs", found(100, 10, 0)), FilePlan::VerifyContent { mtime_secs: 10, size: 100 }));
    // An entry without blob names is never reused.
    let empty = index_with("a.rs", entry(10, 5, 100, &[]), None);
    assert!(matches!(plan_file(&empty, "a.rs", found(100, 10, 5)), FilePlan::ReadContent { .. }));
    assert!(matches!(plan_file(&empty, "a.rs", found(100, 10, 0)), FilePlan::ReadContent { .. }));
}

#[test]
fn verify_by_content() {
    let content = "fn main() {}\n";
    let name = IndexManager::calculate_blob_name("a.rs", content);
    let old = index_with("a.rs", entry(10, 0, 13, &[name.as_str()]), None);
    match plan_after_verify(&old, "a.rs", Some(content), 20, 13, 800) {
        FilePlan::Finished(Some(p)) => match p.result {
            ProcessedResult::Cached { entry } => {
                assert_eq!(entry.mtime_secs, 20);
                assert_eq!(entry.mtime_nanos, 0);
                assert_eq!(entry.blob_hashes, vec![name.clone()]);
            },
            _ => panic!("expected reuse"),
        },
        _ => panic!("expected a settled file"),
    }
    match plan_after_verify(&old, "a.rs", Some("changed"), 20, 7, 800) {
        FilePlan::Finished(Some(p)) => assert!(matches!(p.result, ProcessedResult::New { .. })),
        _ => panic!("expected a changed file"),
    }
    assert!(matches!(
        plan_after_verify(&old, "a.rs", None, 20, 13, 800),
        FilePlan::ReadContent { mtime_secs: 20, mtime_nanos: 0, size: 13 }
    ));
    assert!(matches!(plan_after_verify(&old, "a.rs", Some("\x00\x01\x02"), 20, 3, 800), FilePlan::ReadContent { .. }));
}

#[test]
fn finish_after_read() {
    let old = index_with("a.rs", entry(10, 5, 100, &["x"]), None);
    assert!(finish_file(&old, "a.rs", ReadOutcome::NotFound, 1, 1, 1, 800).is_none());
    assert!(matches!(finish_file(&old, "a.rs", ReadOutcome::Failed, 1, 1, 1, 800), Some(_)));
    assert!(finish_file(&old, "z.rs", ReadOutcome::Failed, 1, 1, 1, 800).is_none());
    let p = finish_file(&old, "a.rs", ReadOutcome::Content("x\ny".to_string()), 7, 8, 3, 1).unwrap();
    match p.result {
        ProcessedResult::New { blobs, entry } => {
            assert_eq!(blobs.len(), 2);
            assert_eq!(entry.mtime_secs, 7);
            assert_eq!(entry.mtime_nanos, 8);
            assert_eq!(entry.blob_hashes.len(), 2);
            assert_eq!(entry.blob_hashes[0], IndexManager::calculate_blob_name("a.rs#chunk1of2", "x"));
        },
        _ => panic!("expected new blobs"),
    }
}

#[test]
fn assemble_new_index() {
    let cached = ProcessedFile {
        rel_path: "a.rs".to_string(),
        result: ProcessedResult::Cached { entry: entry(1, 1, 1, &["h1", "h2"]) },
    };
    let fresh = process_new_content("b.rs", "one\ntwo", 2, 2, 7, 800).unwrap();
    let kept = preserve_old(&index_with("c.rs", entry(3, 3, 3, &["h3"]), None), "c.rs").unwrap();
    let assembled = assemble_index(vec![cached, fresh, kept], "cfg", "session");
    assert_eq!(assembled.index.version, CURRENT_INDEX_VERSION);
    assert_eq!(assembled.index.config_hash, "cfg");
    assert_eq!(assembled.index.session_id.as_deref(), Some("session"));
    assert_eq!(assembled.index.entries.len(), 3);
    assert_eq!(assembled.cached_count, 3);
    assert_eq!(assembled.new_blobs.len(), 1);
    assert_eq!(assembled.new_blobs[0].path, "b.rs");
    // Files that were not processed do not appear.
    assert!(!assembled.index.entries.contains_key("d.rs"));
}

#[test]
fn assemble_all_unchanged_uploads_nothing() {
    let rs = vec![
        ProcessedFile { rel_path: "a".to_string(), result: ProcessedResult::Cached { entry: entry(1, 1, 1, &["h"]) } },
        ProcessedFile { rel_path: "b".to_string(), result: ProcessedResult::Cached { entry: entry(1, 1, 1, &[]) } },
    ];
    let assembled = assemble_index(rs, "c", "s");
    assert!(assembled.new_blobs.is_empty());
    assert_eq!(assembled.cached_count, 1);
}

#[test]
fn outcome_messages() {
    let ok = index_outcome(false, 0, 5, 3);
    assert_eq!(ok.status, "success");
    assert_eq!(ok.message, "Indexed 8 blobs (cached: 5, new: 3)");
    let stats = ok.stats.unwrap();
    assert_eq!((stats.total_blobs, stats.existing_blobs, stats.new_blobs, stats.failed_batches), (8, 5, 3, None));

    let partial = index_outcome(false, 2, 5, 3);
    assert_eq!(partial.status, "partial");
    assert_eq!(partial.message, "Indexed 8 blobs with 2 failed batches (cached: 5, new: 3)");
    assert_eq!(partial.stats.unwrap().failed_batches, Some(2));

    let failed = index_outcome(true, 1, 10, 0);
    assert_eq!(failed.status, "error");
    assert_eq!(failed.message, "Failed to save index (indexed 10 blobs, 1 failed batches)");

    let none = no_text_files_result();
    assert_eq!((none.status.as_str(), none.message.as_str()), ("error", "No text files found in project"));
    assert!(none.stats.is_none());
    let none = no_files_processed_result();
    assert_eq!((none.status.as_str(), none.message.as_str()), ("error", "No files could be processed"));
}

use ace_tool::index::flow::{IndexAction, IndexEvent, IndexRun, IndexStage};
use ace_tool::index::manager::file_size_acceptable;

#[test]
fn run_without_files() {
    let (mut run, first) = IndexRun::start("cfg", "s");
    assert!(matches!(first, IndexAction::Scan));
    match run.step(IndexEvent::Scanned { file_count: 0 }) {
        IndexAction::Finish(r) => {
            assert_eq!(r.status, "error");
            assert_eq!(r.message, "No text files found in project");
            assert!(r.stats.is_none());
        },
        _ => panic!("expected the end of the run"),
    }
    assert_eq!(run.stage(), IndexStage::Done);
}

#[test]
fn run_without_processed_files() {
    let (mut run, _) = IndexRun::start("cfg", "s");
    assert!(matches!(run.step(IndexEvent::Scanned { file_count: 3 }), IndexAction::Process));
    match run.step(IndexEvent::Processed { results: Vec::new() }) {
        IndexAction::Finish(r) => assert_eq!((r.status.as_str(), r.message.as_str()), ("error", "No files could be processed")),
        _ => panic!("expected the end of the run"),
    }
}

#[test]
fn run_skips_upload_without_new_blobs() {
    let (mut run, _) = IndexRun::start("cfg", "s");
    run.step(IndexEvent::Scanned { file_count: 1 });
    let cached = ProcessedFile {
        rel_path: "a".to_string(),
        result: ProcessedResult::Cached { entry: entry(1, 1, 1, &["h1", "h2"]) },
    };
    match run.step(IndexEvent::Processed { results: vec![cached] }) {
        IndexAction::Save { index } => {
            assert_eq!(index.config_hash, "cfg");
            assert_eq!(index.session_id.as_deref(), Some("s"));
            assert_eq!(index.entries.len(), 1);
        },
        _ => panic!("expected the index to save"),
    }
    assert_eq!(run.cached_count(), 2);
    match run.step(IndexEvent::Saved { ok: true }) {
        IndexAction::Finish(r) => {
            assert_eq!(r.status, "success");
            assert_eq!(r.message, "Indexed 2 blobs (cached: 2, new: 0)");
        },
        _ => panic!("expected the report"),
    }
}

#[test]
fn run_with_upload_and_failed_save() {
    let (mut run, _) = IndexRun::start("cfg", "s");
    run.step(IndexEvent::Scanned { file_count: 1 });
    let fresh = process_new_content("b.rs", "x", 1, 1, 1, 800).unwrap();
    match run.step(IndexEvent::Processed { results: vec![fresh] }) {
        IndexAction::Upload { blobs } => assert_eq!(blobs.len(), 1),
        _ => panic!("expected an upload"),
    }
    assert_eq!(run.stage(), IndexStage::Uploading);
    match run.step(IndexEvent::Uploaded { uploaded_count: 1, failed_batches: 1 }) {
        IndexAction::Save { index } => assert!(index.entries.contains_key("b.rs")),
        _ => panic!("expected the index to save"),
    }
    match run.step(IndexEvent::Saved { ok: false }) {
        IndexAction::Finish(r) => {
            assert_eq!(r.status, "error");
            assert_eq!(r.message, "Failed to save index (indexed 1 blobs, 1 failed batches)");
            assert_eq!(r.stats.unwrap().failed_batches, Some(1));
        },
        _ => panic!("expected the report"),
    }
}

#[test]
fn file_size_limit() {

    assert!(file_size_acceptable(0));
    assert!(file_size_acceptable(131072));
    assert!(!file_size_acceptable(131073));
}
