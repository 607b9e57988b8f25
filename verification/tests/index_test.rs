//! Tests for the index data, blob naming, splitting and the manager.

use std::sync::Arc;

use ace_tool::config::{Config, ConfigOptions};
use ace_tool::index::build_batches;
use ace_tool::index::pattern::{ignore_file_lines, IgnoreRules};
use ace_tool::index::manager::{index_size_acceptable, CURRENT_INDEX_VERSION, MAX_INDEX_BYTES};
use ace_tool::index::{Blob, FileEntry, IndexData, IndexEntries, IndexManager, IndexResult, IndexStats};

const PROJECT_ROOT: &str = "/home/user/project";

fn create_test_config() -> Arc<Config> {
    Config::new("https://api.example.com".to_string(), "test-token".to_string(), ConfigOptions::default())
        .unwrap()
}

fn create_test_manager() -> IndexManager {
    IndexManager::new(create_test_config(), PROJECT_ROOT.to_string())
}

fn entry(secs: u64, nanos: u32, size: u64, hashes: &[&str]) -> FileEntry {
    FileEntry {
        mtime_secs: secs,
        mtime_nanos: nanos,
        size,
        blob_hashes: hashes.iter().map(|h| h.to_string()).collect(),
    }
}

#[test]
fn test_calculate_blob_name() {
    let hash1 = IndexManager::calculate_blob_name("test.rs", "fn main() {}");
    let hash2 = IndexManager::calculate_blob_name("test.rs", "fn main() {}");
    let hash3 = IndexManager::calculate_blob_name("test.rs", "fn main() { }");
    let hash4 = IndexManager::calculate_blob_name("other.rs", "fn main() {}");

    assert_eq!(hash1, hash2);
    assert_ne!(hash1, hash3);
    assert_ne!(hash1, hash4);
    assert_eq!(hash1.len(), 64);
}

#[test]
fn test_sanitize_content() {
    let normal = "Hello, World!\nThis is a test.";
    assert_eq!(IndexManager::sanitize_content(normal), normal);

    let with_null = "Hello\x00World";
    assert_eq!(IndexManager::sanitize_content(with_null), "HelloWorld");

    let with_controls = "Hello\x01\x02\x03World\n\tTest";
    assert_eq!(IndexManager::sanitize_content(with_controls), "HelloWorld\n\tTest");

    let with_cr = "Line1\r\nLine2";
    assert_eq!(IndexManager::sanitize_content(with_cr), "Line1\r\nLine2");
}

#[test]
fn test_is_binary_content() {
    let text = "This is normal text with some punctuation! @#$%";
    assert!(!IndexManager::is_binary_content(text));

    let binary = "\x00\x01\x02\x03\x04\x05\x06\x07\x08normal";
    assert!(IndexManager::is_binary_content(binary));

    let mostly_text = "Normal text with one \x00 null byte in a longer string";
    assert!(!IndexManager::is_binary_content(mostly_text));
}

#[test]
fn test_split_file_content_small_file() {
    let manager = create_test_manager();

    let content = "line1\nline2\nline3";
    let blobs = manager.split_file_content("test.txt", content);

    assert_eq!(blobs.len(), 1);
    assert_eq!(blobs[0].path, "test.txt");
    assert_eq!(blobs[0].content, content);
}

#[test]
fn test_split_file_content_large_file() {
    let mut config = (*create_test_config()).clone();
    config.max_lines_per_blob = 10;
    let config = Arc::new(config);

    let manager = IndexManager::new(config, PROJECT_ROOT.to_string());

    let lines: Vec<String> = (1..=25).map(|i| format!("line{}", i)).collect();
    let content = lines.join("\n");

    let blobs = manager.split_file_content("test.txt", &content);

    assert_eq!(blobs.len(), 3);
    assert_eq!(blobs[0].path, "test.txt#chunk1of3");
    assert_eq!(blobs[1].path, "test.txt#chunk2of3");
    assert_eq!(blobs[2].path, "test.txt#chunk3of3");
}

#[test]
fn test_match_pattern_simple() {
    let manager = create_test_manager();

    assert!(manager.match_pattern("node_modules", "node_modules"));
    assert!(!manager.match_pattern("node_module", "node_modules"));

    assert!(manager.match_pattern("test.pyc", "*.pyc"));
    assert!(manager.match_pattern("module.pyc", "*.pyc"));
    assert!(!manager.match_pattern("test.py", "*.pyc"));

    assert!(manager.match_pattern("test1", "test?"));
    assert!(manager.match_pattern("testA", "test?"));
    assert!(!manager.match_pattern("test12", "test?"));
}

#[test]
fn test_index_manager_new() {
    let config = create_test_config();

    let manager = IndexManager::new(config.clone(), PROJECT_ROOT.to_string());
    assert_eq!(manager.base_url(), "https://api.example.com");
    assert_eq!(manager.token(), "test-token");
}

#[test]
fn test_index_result_fields() {
    let result = IndexResult {
        status: "success".to_string(),
        message: "Indexed 10 blobs".to_string(),
        stats: Some(IndexStats { total_blobs: 10, existing_blobs: 5, new_blobs: 5, failed_batches: None }),
    };

    assert_eq!(result.status, "success");
    assert!(result.stats.is_some());
    let stats = result.stats.unwrap();
    assert_eq!(stats.total_blobs, 10);
    assert_eq!(stats.existing_blobs, 5);
    assert_eq!(stats.new_blobs, 5);
}

#[test]
fn test_index_data_default() {
    let index = IndexData::default();
    assert_eq!(index.version, 0);
    assert!(index.config_hash.is_empty());
    assert!(index.entries.is_empty());
}

#[test]
fn test_index_data_get_all_blob_hashes() {
    let mut entries = IndexEntries::new();
    entries.insert("file1.rs".to_string(), entry(1000, 0, 100, &["hash1", "hash2"]));
    entries.insert("file2.rs".to_string(), entry(2000, 0, 200, &["hash3"]));
    entries.insert("file3.rs".to_string(), entry(3000, 0, 300, &[]));

    let index = IndexData { version: 2, config_hash: "hash".to_string(), session_id: None, entries };

    let all_hashes = index.get_all_blob_hashes();
    assert_eq!(all_hashes.len(), 3);
    assert!(all_hashes.contains(&"hash1".to_string()));
    assert!(all_hashes.contains(&"hash2".to_string()));
    assert!(all_hashes.contains(&"hash3".to_string()));
}

#[test]
fn test_file_entry_clone() {
    let entry = FileEntry { mtime_secs: 1000, mtime_nanos: 500, size: 100, blob_hashes: vec!["hash1".to_string()] };

    let cloned = entry.clone();
    assert_eq!(cloned.mtime_secs, entry.mtime_secs);
    assert_eq!(cloned.mtime_nanos, entry.mtime_nanos);
    assert_eq!(cloned.size, entry.size);
    assert_eq!(cloned.blob_hashes, entry.blob_hashes);
}

#[test]
fn test_config_hash_consistency() {
    let config = create_test_config();

    let manager1 = IndexManager::new(config.clone(), PROJECT_ROOT.to_string());
    let manager2 = IndexManager::new(config, PROJECT_ROOT.to_string());

    assert_eq!(manager1.config_hash(), manager2.config_hash());
}

#[test]
fn test_config_hash_changes_with_max_lines() {
    let mut config1 = (*create_test_config()).clone();
    config1.max_lines_per_blob = 100;

    let mut config2 = (*create_test_config()).clone();
    config2.max_lines_per_blob = 200;

    let manager1 = IndexManager::new(Arc::new(config1), PROJECT_ROOT.to_string());
    let manager2 = IndexManager::new(Arc::new(config2), PROJECT_ROOT.to_string());

    assert_ne!(manager1.config_hash(), manager2.config_hash());
}

#[test]
fn test_config_hash_not_empty() {
    let manager = create_test_manager();

    assert!(!manager.config_hash().is_empty());
    assert_eq!(manager.config_hash().len(), 16);
}

#[test]
fn test_load_index_with_wrong_config_hash_returns_empty() {
    let manager = create_test_manager();

    let mut index_data =
        IndexData { version: 2, config_hash: "different_hash".to_string(), session_id: None, entries: IndexEntries::new() };
    index_data.entries.insert("file.rs".to_string(), entry(1000, 0, 100, &["hash1"]));

    let loaded = manager.accept_loaded_index(index_data);
    assert!(loaded.entries.is_empty());
}

#[test]
fn test_load_index_with_wrong_version_returns_empty() {
    let manager = create_test_manager();

    let index_data = IndexData {
        version: 1,
        config_hash: manager.config_hash().to_string(),
        session_id: None,
        entries: IndexEntries::new(),
    };

    let loaded = manager.accept_loaded_index(index_data);
    assert!(loaded.entries.is_empty());
}

#[test]
fn test_file_entry_with_zero_nanoseconds() {
    let entry = FileEntry { mtime_secs: 1704067200, mtime_nanos: 0, size: 1024, blob_hashes: vec!["hash".to_string()] };

    assert_eq!(entry.mtime_nanos, 0);
}

#[test]
fn test_index_stats_with_failed_batches() {
    let stats = IndexStats { total_blobs: 100, existing_blobs: 50, new_blobs: 45, failed_batches: Some(5) };

    assert_eq!(stats.total_blobs, 100);
    assert_eq!(stats.existing_blobs, 50);
    assert_eq!(stats.new_blobs, 45);
    assert_eq!(stats.failed_batches, Some(5));
}

#[test]
fn test_index_stats_no_failed_batches() {
    let stats = IndexStats { total_blobs: 100, existing_blobs: 50, new_blobs: 50, failed_batches: None };

    assert_eq!(stats.failed_batches, None);
}

#[test]
fn test_index_result_success() {
    let result = IndexResult {
        status: "success".to_string(),
        message: "Indexed 100 blobs".to_string(),
        stats: Some(IndexStats { total_blobs: 100, existing_blobs: 0, new_blobs: 100, failed_batches: None }),
    };

    assert_eq!(result.status, "success");
    assert!(result.message.contains("100"));
}

#[test]
fn test_index_result_partial() {
    let result = IndexResult {
        status: "partial".to_string(),
        message: "Indexed with some failures".to_string(),
        stats: Some(IndexStats { total_blobs: 100, existing_blobs: 50, new_blobs: 45, failed_batches: Some(5) }),
    };

    assert_eq!(result.status, "partial");
}

#[test]
fn test_index_result_error() {
    let result = IndexResult { status: "error".to_string(), message: "No files found".to_string(), stats: None };

    assert_eq!(result.status, "error");
    assert!(result.stats.is_none());
}

// ---------------------------------------------------------------------------
// Further cases
// ---------------------------------------------------------------------------

#[test]
fn blob_name_known_value() {
    // SHA-256 of the bytes "ab" (path "a", content "b").
    assert_eq!(
        IndexManager::calculate_blob_name("a", "b"),
        "fb8e20fc2e4c3f248c60c39bd652f3c1347298bb977b8b4d5903b85055620603"
    );
    // The name depends on the concatenation of path and content.
    assert_eq!(IndexManager::calculate_blob_name("ab", ""), IndexManager::calculate_blob_name("a", "b"));
}

#[test]
fn config_hash_known_value() {
    let manager = create_test_manager();
    assert!(manager.config_hash().chars().all(|c| c.is_ascii_hexdigit() && !c.is_ascii_uppercase()));
    assert_eq!(manager.config_hash(), ace_tool::hashing::calculate_config_hash(800));
}

#[test]
fn accepted_index_is_kept() {
    let manager = create_test_manager();
    let mut data = IndexData {
        version: CURRENT_INDEX_VERSION,
        config_hash: manager.config_hash().to_string(),
        session_id: Some("s".to_string()),
        entries: IndexEntries::new(),
    };
    data.entries.insert("a.rs".to_string(), entry(1, 2, 3, &["h"]));
    let kept = manager.accept_loaded_index(data);
    assert_eq!(kept.entries.len(), 1);
    assert_eq!(kept.session_id.as_deref(), Some("s"));
}

#[test]
fn index_size_limit() {
    assert!(index_size_acceptable(0));
    assert!(index_size_acceptable(MAX_INDEX_BYTES));
    assert!(!index_size_acceptable(MAX_INDEX_BYTES + 1));
}

#[test]
fn entries_insert_replaces_and_keeps_order() {
    let mut entries = IndexEntries::new();
    assert!(entries.insert("a".to_string(), entry(1, 0, 1, &["x"])).is_none());
    assert!(entries.insert("b".to_string(), entry(2, 0, 2, &["y"])).is_none());
    let old = entries.insert("a".to_string(), entry(3, 0, 3, &["z"])).unwrap();
    assert_eq!(old.mtime_secs, 1);
    assert_eq!(entries.len(), 2);
    assert_eq!(entries.get("a").unwrap().blob_hashes, vec!["z".to_string()]);
    assert!(entries.contains_key("b"));
    assert!(!entries.contains_key("c"));
    assert_eq!(entries.all_blob_hashes(), vec!["z".to_string(), "y".to_string()]);
    let copy = entries.clone();
    assert_eq!(copy.len(), 2);
}

#[test]
fn sanitize_removes_delete_and_keeps_unicode() {
    assert_eq!(IndexManager::sanitize_content("a\x7fb\x0b\x0c\x1fc é"), "abc é");
    let once = IndexManager::sanitize_content("x\x01\ty\x02");
    assert_eq!(IndexManager::sanitize_content(&once), once);
}

#[test]
fn binary_edge_cases() {
    assert!(!IndexManager::is_binary_content(""));
    // Exactly a tenth is not binary; more is.
    assert!(!IndexManager::is_binary_content("\x00abcdefghi"));
    assert!(IndexManager::is_binary_content("\x00\x01abcdefgh"));
    // Tabs and line breaks are printable.
    assert!(!IndexManager::is_binary_content("\t\n\r\t\n\r"));
}

#[test]
fn split_zero_means_default_lines() {
    let content: String = (0..801).map(|i| format!("l{}\n", i)).collect();
    let blobs = ace_tool::index::split_content("f.rs", &content, 0);
    assert_eq!(blobs.len(), 2);
    assert_eq!(blobs[0].path, "f.rs#chunk1of2");
    assert_eq!(blobs[0].content.lines().count(), 800);
    assert_eq!(blobs[1].content, "l800");
}

#[test]
fn split_chunks_join_lines_and_drop_cr() {
    let blobs = ace_tool::index::split_content("p", "a\r\nb\nc\n", 2);
    assert_eq!(blobs.len(), 2);
    assert_eq!(blobs[0].content, "a\nb");
    assert_eq!(blobs[1].content, "c");
    // At most the maximum number of lines: the content is kept as it is.
    let whole = ace_tool::index::split_content("p", "a\r\nb\n", 2);
    assert_eq!(whole.len(), 1);
    assert_eq!(whole[0].content, "a\r\nb\n");
}

#[test]
fn batches_respect_count_and_size() {
    let blobs: Vec<Blob> = (0..5).map(|i| Blob { path: format!("f{}", i), content: "x".to_string() }).collect();
    let batches = build_batches(blobs, 2);
    let sizes: Vec<usize> = batches.iter().map(|b| b.len()).collect();
    assert_eq!(sizes, vec![2, 2, 1]);
    assert_eq!(batches[2][0].path, "f4");

    // Zero means one blob per batch.
    let blobs: Vec<Blob> = (0..3).map(|i| Blob { path: format!("g{}", i), content: String::new() }).collect();
    assert_eq!(build_batches(blobs, 0).len(), 3);

    // A batch closes before passing the byte limit; a large blob stands alone.
    let big = "y".repeat(600 * 1024);
    let blobs = vec![
        Blob { path: "a".to_string(), content: big.clone() },
        Blob { path: "b".to_string(), content: big.clone() },
        Blob { path: "c".to_string(), content: "z".repeat(2 * 1024 * 1024) },
        Blob { path: "d".to_string(), content: "w".to_string() },
    ];
    let batches = build_batches(blobs, 10);
    let paths: Vec<Vec<&str>> = batches.iter().map(|b| b.iter().map(|x| x.path.as_str()).collect()).collect();
    assert_eq!(paths, vec![vec!["a"], vec!["b"], vec!["c"], vec!["d"]]);
    assert!(build_batches(Vec::new(), 3).is_empty());
}

#[test]
fn manager_settings_from_config() {
    let manager = create_test_manager();
    assert_eq!(manager.project_root(), PROJECT_ROOT);
    assert_eq!(manager.max_lines_per_blob(), 800);
    assert_eq!(manager.retrieval_timeout_secs(), 60);
    assert!(!manager.no_adaptive());
    assert_eq!(manager.text_extensions().len(), ace_tool::config::default_text_extensions().len());
    assert_eq!(manager.exclude_patterns().len(), ace_tool::config::default_exclude_patterns().len());
    assert!(manager.cli_overrides().upload_concurrency.is_none());
}

#[test]
fn file_blobs_skip_rules() {
    let manager = create_test_manager();
    assert!(manager.file_blobs("bin.dat", "\x00\x01\x02abc").is_none());
    let big = "a".repeat(128 * 1024 + 1);
    assert!(manager.file_blobs("big.txt", &big).is_none());
    // Control characters are removed before the size check.
    let exact = format!("{}\x01", "a".repeat(128 * 1024));
    let blobs = manager.file_blobs("exact.txt", &exact).unwrap();
    assert_eq!(blobs.len(), 1);
    assert_eq!(blobs[0].content.len(), 128 * 1024);
}

#[test]
fn exclusion_by_patterns() {
    let manager = create_test_manager();
    assert!(manager.should_exclude(None, false, None));
    assert!(manager.should_exclude(Some("node_modules"), true, None));
    assert!(manager.should_exclude(Some("web/node_modules/x.js"), false, None));
    assert!(manager.should_exclude(Some("pkg/cache.pyc"), false, None));
    assert!(!manager.should_exclude(Some("src/main.rs"), false, None));
    assert!(!manager.should_exclude(Some("README.md"), false, None));
}

#[test]
fn exclusion_by_ignore_rules() {
    let manager = create_test_manager();
    let gi = IgnoreRules::new(PROJECT_ROOT, vec!["*.secret".to_string(), "private/".to_string()], Vec::new());
    assert!(manager.should_exclude(Some("keys.secret"), false, Some(&gi)));
    assert!(manager.should_exclude(Some("private"), true, Some(&gi)));
    assert!(!manager.should_exclude(Some("src/lib.rs"), false, Some(&gi)));
    // Exclude patterns still apply alongside the ignore rules.
    assert!(manager.should_exclude(Some("target"), true, Some(&gi)));
    // A later .aceignore line wins over a .gitignore line.
    let both = IgnoreRules::new(PROJECT_ROOT, vec!["*.dat".to_string()], vec!["!keep.dat".to_string()]);
    assert!(manager.should_exclude(Some("a.dat"), false, Some(&both)));
    assert!(!manager.should_exclude(Some("keep.dat"), false, Some(&both)));
    assert!(both.ignores("a.dat", false));
    // Comment lines are not rules.
    let comments = IgnoreRules::new(PROJECT_ROOT, vec!["# *.rs".to_string()], Vec::new());
    assert!(!comments.ignores("main.rs", false));
}

#[test]
fn ignore_file_lines_split() {
    let lines = ignore_file_lines("\u{feff}*.log\r\ntarget/\n\n# c\n");
    assert_eq!(lines, vec!["*.log".to_string(), "target/".to_string(), String::new(), "# c".to_string()]);
    assert!(ignore_file_lines("").is_empty());
}
