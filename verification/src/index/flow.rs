//! The steps of indexing a project, as decisions on plain values: which
//! previous index to start from, what to do with each file given what the
//! filesystem reported, how the new index is assembled from the processed
//! files, and what the run reports. The caller reads the files and uploads
//! the blobs, and hands each outcome back.

use vstd::prelude::*;

use crate::index::manager::{
    blob_views, cache_hit, file_size_acceptable, check_cache, is_checked_result, is_kept_entry, is_new_file_result,
    preserve_old, process_new_content, processed_entry, verify_unchanged, Blob, CacheCheck,
    FileEntryView, IndexData, IndexEntries, IndexResult, IndexStats, ProcessedFile,
    ProcessedResult, CURRENT_INDEX_VERSION, MAX_BLOB_SIZE,
};
use crate::text::{chars_of, decimal, push_decimal, push_str, string_from_chars};

verus! {

// ---------------------------------------------------------------------------
// The previous index
// ---------------------------------------------------------------------------

/// An index with no entries, no session, no fingerprint and version zero.
pub open spec fn is_empty_index(d: IndexData) -> bool {
    &&& d.version == 0
    &&& d.config_hash@.len() == 0
    &&& d.session_id is None
    &&& d.entries@.len() == 0
}

/// The cached index records an upload session other than the current one.
pub open spec fn from_other_session(cached: IndexData, current_session: Seq<char>) -> bool {
    cached.session_id matches Some(s) && s@ != current_session
}

/// The index that indexing starts from: an empty one when a full re-upload
/// is forced or when the cached index was uploaded in another session (the
/// service no longer holds its blobs), else the cached index.
pub fn select_previous_index(force_reupload: bool, cached: IndexData, current_session: &str) -> (res: IndexData)
    ensures
        force_reupload || from_other_session(cached, current_session@) ==> is_empty_index(res),
        !(force_reupload || from_other_session(cached, current_session@)) ==> res == cached,
{
    if force_reupload {
        return IndexData::default();
    }
    let other = match &cached.session_id {
        Some(s) => !crate::text::str_equal(s.as_str(), current_session),
        None => false,
    };
    if other {
        IndexData::default()
    } else {
        cached
    }
}

// ---------------------------------------------------------------------------
// One file
// ---------------------------------------------------------------------------

/// What reading a file's metadata gave.
pub enum MetadataOutcome {
    /// The file no longer exists.
    NotFound,
    /// The metadata could not be read for another reason.
    Unreadable,
    /// Size in bytes, and modification time as seconds and nanoseconds since
    /// the UNIX epoch (zero for a time before it); `None` when the system
    /// does not report a modification time.
    Found { size: u64, mtime: Option<(u64, u32)> },
}

/// What to do next with a file.
pub enum FilePlan {
    /// Nothing more: the file yields this result (none: left out of the index).
    Finished(Option<ProcessedFile>),
    /// Read the content and compare it with the previous entry (see `plan_after_verify`).
    VerifyContent { mtime_secs: u64, size: u64 },
    /// Read the content and process it (see `finish_file`).
    ReadContent { mtime_secs: u64, mtime_nanos: u32, size: u64 },
}

/// The previous entry matches the metadata to the nanosecond.
pub open spec fn unchanged_by_time(e: FileEntryView, mtime_secs: u64, mtime_nanos: u32, size: u64) -> bool {
    &&& e.mtime_secs == mtime_secs
    &&& e.size == size
    &&& e.blob_hashes.len() > 0
    &&& mtime_nanos != 0
    &&& e.mtime_nanos == mtime_nanos
}

/// The previous entry matches seconds and size on a filesystem without
/// sub-second times, so only the content can tell.
pub open spec fn to_verify_by_content(e: FileEntryView, mtime_secs: u64, mtime_nanos: u32, size: u64) -> bool {
    &&& e.mtime_secs == mtime_secs
    &&& e.size == size
    &&& e.blob_hashes.len() > 0
    &&& mtime_nanos == 0
}

/// The plan for a file of acceptable size with the given time and size.
pub open spec fn is_plan_for(
    plan: FilePlan,
    old: Map<Seq<char>, FileEntryView>,
    rel_path: Seq<char>,
    mtime_secs: u64,
    mtime_nanos: u32,
    size: u64,
) -> bool {
    if old.contains_key(rel_path) && unchanged_by_time(old[rel_path], mtime_secs, mtime_nanos, size) {
        plan matches FilePlan::Finished(r) && is_kept_entry(r, old, rel_path)
    } else if old.contains_key(rel_path) && to_verify_by_content(old[rel_path], mtime_secs, mtime_nanos, size) {
        plan matches FilePlan::VerifyContent { mtime_secs: s, size: z } && s == mtime_secs && z == size
    } else {
        plan matches FilePlan::ReadContent { mtime_secs: s, mtime_nanos: n, size: z } && s == mtime_secs
            && n == mtime_nanos && z == size
    }
}

/// Decides what to do with a file from its metadata. A missing file and a
/// file over `MAX_BLOB_SIZE` bytes are left out; when the metadata or its
/// time cannot be read the previous entry is kept; an unchanged file reuses
/// its previous entry.
pub fn plan_file(old_index: &IndexData, rel_path: &str, meta: MetadataOutcome) -> (res: FilePlan)
    ensures
        match meta {
            MetadataOutcome::NotFound => res matches FilePlan::Finished(r) && r is None,
            MetadataOutcome::Unreadable => res matches FilePlan::Finished(r) && is_kept_entry(
                r,
                old_index.entries.as_map(),
                rel_path@,
            ),
            MetadataOutcome::Found { size, mtime } => if size > MAX_BLOB_SIZE {
                res matches FilePlan::Finished(r) && r is None
            } else {
                match mtime {
                    None => res matches FilePlan::Finished(r) && is_kept_entry(r, old_index.entries.as_map(), rel_path@),
                    Some(t) => is_plan_for(res, old_index.entries.as_map(), rel_path@, t.0, t.1, size),
                }
            },
        },
{
    match meta {
        MetadataOutcome::NotFound => FilePlan::Finished(None),
        MetadataOutcome::Unreadable => FilePlan::Finished(preserve_old(old_index, rel_path)),
        MetadataOutcome::Found { size, mtime } => {
            if !file_size_acceptable(size) {
                return FilePlan::Finished(None);
            }
            match mtime {
                None => FilePlan::Finished(preserve_old(old_index, rel_path)),
                Some((secs, nanos)) => {
                    let cached = old_index.entries.get(rel_path);
                    match check_cache(cached, secs, nanos, size) {
                        CacheCheck::Hit => match cached {
                            Some(c) => FilePlan::Finished(Some(cache_hit(rel_path, c))),
                            None => FilePlan::ReadContent { mtime_secs: secs, mtime_nanos: nanos, size },
                        },
                        CacheCheck::VerifyContent => FilePlan::VerifyContent { mtime_secs: secs, size },
                        CacheCheck::Miss => FilePlan::ReadContent { mtime_secs: secs, mtime_nanos: nanos, size },
                    }
                },
            }
        },
    }
}

/// Whether a content check settles the file: the content was read, the
/// previous entry exists and the content is not skipped.
pub open spec fn check_settles(
    old: Map<Seq<char>, FileEntryView>,
    rel_path: Seq<char>,
    content: Option<Seq<char>>,
    max_lines_per_blob: usize,
) -> bool {
    content matches Some(c) && old.contains_key(rel_path)
        && crate::index::manager::file_blobs_spec(rel_path, c, max_lines_per_blob) is Some
}

/// After the read asked for by `FilePlan::VerifyContent` (`None`: the read or
/// its decoding failed): the file is settled by comparing blob names with its
/// previous entry, or else it is read again and processed as a changed file.
pub fn plan_after_verify(
    old_index: &IndexData,
    rel_path: &str,
    content: Option<&str>,
    mtime_secs: u64,
    size: u64,
    max_lines_per_blob: usize,
) -> (res: FilePlan)
    ensures
        check_settles(
            old_index.entries.as_map(),
            rel_path@,
            match content { Some(c) => Some(c@), None => None },
            max_lines_per_blob,
        ) ==> (res matches FilePlan::Finished(r) && is_checked_result(
            r,
            rel_path@,
            content.unwrap()@,
            old_index.entries.as_map()[rel_path@],
            mtime_secs,
            size,
            max_lines_per_blob,
        )),
        !check_settles(
            old_index.entries.as_map(),
            rel_path@,
            match content { Some(c) => Some(c@), None => None },
            max_lines_per_blob,
        ) ==> (res matches FilePlan::ReadContent { mtime_secs: s, mtime_nanos: n, size: z } && s == mtime_secs
            && n == 0 && z == size),
{
    let read_again = FilePlan::ReadContent { mtime_secs, mtime_nanos: 0, size };
    match content {
        None => read_again,
        Some(c) => match old_index.entries.get(rel_path) {
            None => read_again,
            Some(cached) => match verify_unchanged(rel_path, c, cached, mtime_secs, size, max_lines_per_blob) {
                Some(p) => FilePlan::Finished(Some(p)),
                None => read_again,
            },
        },
    }
}

/// What reading a file's content gave.
pub enum ReadOutcome {
    /// The file no longer exists.
    NotFound,
    /// The file could not be read, or its bytes not decoded.
    Failed,
    /// The decoded content.
    Content(String),
}

/// After the read asked for by `FilePlan::ReadContent`: a vanished file is
/// left out, a failed read keeps the previous entry, and content is
/// processed as a new or changed file with the given metadata.
pub fn finish_file(
    old_index: &IndexData,
    rel_path: &str,
    read: ReadOutcome,
    mtime_secs: u64,
    mtime_nanos: u32,
    size: u64,
    max_lines_per_blob: usize,
) -> (res: Option<ProcessedFile>)
    ensures
        match read {
            ReadOutcome::NotFound => res is None,
            ReadOutcome::Failed => is_kept_entry(res, old_index.entries.as_map(), rel_path@),
            ReadOutcome::Content(c) => is_new_file_result(
                res,
                rel_path@,
                c@,
                mtime_secs,
                mtime_nanos,
                size,
                max_lines_per_blob,
            ),
        },
{
    match read {
        ReadOutcome::NotFound => None,
        ReadOutcome::Failed => preserve_old(old_index, rel_path),
        ReadOutcome::Content(c) => process_new_content(
            rel_path,
            c.as_str(),
            mtime_secs,
            mtime_nanos,
            size,
            max_lines_per_blob,
        ),
    }
}

// ---------------------------------------------------------------------------
// The new index
// ---------------------------------------------------------------------------

/// The entries of the new index: each processed file's entry under its path,
/// a later file replacing an earlier one with the same path.
pub open spec fn entries_of(rs: Seq<ProcessedFile>) -> Map<Seq<char>, FileEntryView>
    decreases rs.len(),
{
    if rs.len() == 0 {
        Map::empty()
    } else {
        entries_of(rs.drop_last()).insert(rs.last().rel_path@, processed_entry(rs.last()))
    }
}

/// Number of blob names reused from unchanged files.
pub open spec fn reused_blob_count(rs: Seq<ProcessedFile>) -> nat
    decreases rs.len(),
{
    if rs.len() == 0 {
        0
    } else {
        reused_blob_count(rs.drop_last()) + match rs.last().result {
            ProcessedResult::Cached { entry } => entry@.blob_hashes.len(),
            ProcessedResult::New { .. } => 0,
        }
    }
}

/// The blobs of new or changed files, file by file.
pub open spec fn blobs_to_upload(rs: Seq<ProcessedFile>) -> Seq<(Seq<char>, Seq<char>)>
    decreases rs.len(),
{
    if rs.len() == 0 {
        Seq::empty()
    } else {
        blobs_to_upload(rs.drop_last()) + match rs.last().result {
            ProcessedResult::Cached { .. } => Seq::empty(),
            ProcessedResult::New { blobs, .. } => blob_views(blobs@),
        }
    }
}

proof fn lemma_reused_prefix(rs: Seq<ProcessedFile>, i: int)
    requires
        0 <= i <= rs.len(),
    ensures
        reused_blob_count(rs.take(i)) <= reused_blob_count(rs),
    decreases rs.len(),
{
    if i < rs.len() {
        assert(rs.drop_last().take(i) =~= rs.take(i));
        lemma_reused_prefix(rs.drop_last(), i);
    } else {
        assert(rs.take(i) =~= rs);
    }
}

/// The new index built from the processed files, with the count of reused
/// blob names and the blobs still to upload.
pub struct AssembledIndex {
    pub index: IndexData,
    pub cached_count: usize,
    pub new_blobs: Vec<Blob>,
}

/// Builds the new index from the processed files alone (files absent from
/// the results, such as deleted ones, leave the index), under the current
/// format version, configuration fingerprint and session.
pub fn assemble_index(results: Vec<ProcessedFile>, config_hash: &str, session_id: &str) -> (res: AssembledIndex)
    requires
        reused_blob_count(results@) <= usize::MAX,
    ensures
        res.index.version == CURRENT_INDEX_VERSION,
        res.index.config_hash@ == config_hash@,
        res.index.session_id matches Some(s) && s@ == session_id@,
        res.index.entries.as_map() == entries_of(results@),
        res.cached_count == reused_blob_count(results@),
        blob_views(res.new_blobs@) == blobs_to_upload(results@),
{
    let ghost rs = results@;
    let mut entries = IndexEntries::new();
    let mut cached_count: usize = 0;
    let mut new_blobs: Vec<Blob> = Vec::new();
    proof {
        crate::index::manager::lemma_pairs_map(entries@);
        assert(entries.as_map() =~= entries_of(rs.take(0)));
        assert(new_blobs@ =~= Seq::<Blob>::empty());
        assert(blob_views(new_blobs@) =~= blobs_to_upload(rs.take(0)));
    }
    for pf in it: results.into_iter()
        invariant
            it.seq() == rs,
            reused_blob_count(rs) <= usize::MAX,
            entries.as_map() == entries_of(rs.take(it.index())),
            cached_count == reused_blob_count(rs.take(it.index())),
            blob_views(new_blobs@) == blobs_to_upload(rs.take(it.index())),
    {
        let ghost k = it.index();
        proof {
            assert(rs.take(k + 1).drop_last() =~= rs.take(k));
            assert(rs.take(k + 1).last() == pf);
            lemma_reused_prefix(rs, k + 1);
        }
        let ProcessedFile { rel_path, result } = pf;
        match result {
            ProcessedResult::Cached { entry } => {
                cached_count = cached_count + entry.blob_hashes.len();
                entries.insert(rel_path, entry);
            },
            ProcessedResult::New { blobs, entry } => {
                entries.insert(rel_path, entry);
                let mut blobs = blobs;
                let ghost before = new_blobs@;
                let ghost added = blobs@;
                new_blobs.append(&mut blobs);
                proof {
                    assert(blob_views(new_blobs@) =~= blob_views(before) + blob_views(added));
                }
            },
        }
    }
    proof {
        assert(rs.take(rs.len() as int) =~= rs);
    }
    AssembledIndex {
        index: IndexData {
            version: CURRENT_INDEX_VERSION,
            config_hash: config_hash.to_owned(),
            session_id: Some(session_id.to_owned()),
            entries,
        },
        cached_count,
        new_blobs,
    }
}

/// The new index holds exactly the paths of the processed files (a file
/// that was not processed, such as a deleted one, leaves the index), each
/// with the entry of the last result for that path.
pub proof fn law_index_keeps_processed_paths(rs: Seq<ProcessedFile>, k: Seq<char>)
    ensures
        entries_of(rs).contains_key(k) <==> exists|i: int| 0 <= i < rs.len() && (#[trigger] rs[i]).rel_path@ == k,
        entries_of(rs).contains_key(k) ==> exists|i: int|
            0 <= i < rs.len() && (#[trigger] rs[i]).rel_path@ == k && entries_of(rs)[k] == processed_entry(rs[i])
                && forall|j: int| i < j < rs.len() ==> (#[trigger] rs[j]).rel_path@ != k,
    decreases rs.len(),
{
    if rs.len() > 0 {
        let init = rs.drop_last();
        law_index_keeps_processed_paths(init, k);
        let last = rs.len() - 1;
        if rs[last].rel_path@ == k {
            assert(entries_of(rs)[k] == processed_entry(rs[last]));
        } else {
            if exists|i: int| 0 <= i < rs.len() && (#[trigger] rs[i]).rel_path@ == k {
                let i = choose|i: int| 0 <= i < rs.len() && (#[trigger] rs[i]).rel_path@ == k;
                assert(init[i] == rs[i]);
            }
            if entries_of(init).contains_key(k) {
                let i = choose|i: int|
                    0 <= i < init.len() && (#[trigger] init[i]).rel_path@ == k && entries_of(init)[k] == processed_entry(init[i])
                        && forall|j: int| i < j < init.len() ==> (#[trigger] init[j]).rel_path@ != k;
                assert(rs[i] == init[i]);
                assert forall|j: int| i < j < rs.len() implies (#[trigger] rs[j]).rel_path@ != k by {
                    if j < init.len() {
                        assert(rs[j] == init[j]);
                    }
                }
            }
        }
    }
}

/// When every file is unchanged, indexing has nothing to upload and reuses
/// every blob name of the previous entries.
pub proof fn law_unchanged_files_upload_nothing(rs: Seq<ProcessedFile>)
    requires
        forall|i: int| 0 <= i < rs.len() ==> (#[trigger] rs[i]).result is Cached,
    ensures
        blobs_to_upload(rs).len() == 0,
    decreases rs.len(),
{
    if rs.len() > 0 {
        let init = rs.drop_last();
        assert forall|i: int| 0 <= i < init.len() implies (#[trigger] init[i]).result is Cached by {
            assert(init[i] == rs[i]);
        }
        law_unchanged_files_upload_nothing(init);
        assert(rs.last().result is Cached);
    }
}

/// The blobs uploaded for a run over two groups of processed files are
/// those of the first group followed by those of the second: every new or
/// changed file contributes all its blobs, in order.
pub proof fn law_blobs_to_upload_concat(a: Seq<ProcessedFile>, b: Seq<ProcessedFile>)
    ensures
        blobs_to_upload(a + b) == blobs_to_upload(a) + blobs_to_upload(b),
    decreases b.len(),
{
    if b.len() == 0 {
        assert(a + b =~= a);
        assert(blobs_to_upload(a) + blobs_to_upload(b) =~= blobs_to_upload(a));
    } else {
        law_blobs_to_upload_concat(a, b.drop_last());
        assert((a + b).drop_last() =~= a + b.drop_last());
        assert((a + b).last() == b.last());
        let tail = match b.last().result {
            ProcessedResult::Cached { .. } => Seq::<(Seq<char>, Seq<char>)>::empty(),
            ProcessedResult::New { blobs, .. } => blob_views(blobs@),
        };
        assert(blobs_to_upload(a) + blobs_to_upload(b.drop_last()) + tail =~= blobs_to_upload(a) + (
        blobs_to_upload(b.drop_last()) + tail));
    }
}

/// A new or changed file alone uploads exactly its blobs; an unchanged file
/// alone uploads nothing.
pub proof fn law_blobs_to_upload_single(f: ProcessedFile)
    ensures
        f.result matches ProcessedResult::New { blobs, .. } ==> blobs_to_upload(seq![f]) == blob_views(blobs@),
        f.result is Cached ==> blobs_to_upload(seq![f]).len() == 0,
{
    let one = seq![f];
    assert(one.drop_last() =~= Seq::<ProcessedFile>::empty());
    assert(one.last() == f);
    assert(blobs_to_upload(one.drop_last()) == Seq::<(Seq<char>, Seq<char>)>::empty());
    if let ProcessedResult::New { blobs, .. } = f.result {
        assert(Seq::<(Seq<char>, Seq<char>)>::empty() + blob_views(blobs@) =~= blob_views(blobs@));
    }
}

/// Appending a processed file to the results appends that file's blobs
/// (none when it is unchanged) to the blobs to upload.
pub proof fn law_blobs_to_upload_push(rs: Seq<ProcessedFile>, f: ProcessedFile)
    ensures
        f.result matches ProcessedResult::New { blobs, .. } ==> blobs_to_upload(rs.push(f)) == blobs_to_upload(rs)
            + blob_views(blobs@),
        f.result is Cached ==> blobs_to_upload(rs.push(f)) == blobs_to_upload(rs),
{
    law_blobs_to_upload_concat(rs, seq![f]);
    law_blobs_to_upload_single(f);
    assert(rs + seq![f] =~= rs.push(f));
    if f.result is Cached {
        assert(blobs_to_upload(rs) + blobs_to_upload(seq![f]) =~= blobs_to_upload(rs));
    }
}

// ---------------------------------------------------------------------------
// What a run reports
// ---------------------------------------------------------------------------

/// Status of a finished run: "error" when the index could not be saved,
/// "partial" when some batches failed, else "success".
pub open spec fn outcome_status(save_failed: bool, failed_batches: usize) -> Seq<char> {
    if save_failed {
        "error"@
    } else if failed_batches > 0 {
        "partial"@
    } else {
        "success"@
    }
}

/// Message of a finished run.
pub open spec fn outcome_message(save_failed: bool, failed_batches: usize, cached: usize, uploaded: usize) -> Seq<char> {
    let total = decimal((cached + uploaded) as nat);
    if save_failed {
        "Failed to save index (indexed "@ + total + " blobs, "@ + decimal(failed_batches as nat)
            + " failed batches)"@
    } else if failed_batches > 0 {
        "Indexed "@ + total + " blobs with "@ + decimal(failed_batches as nat) + " failed batches (cached: "@
            + decimal(cached as nat) + ", new: "@ + decimal(uploaded as nat) + ")"@
    } else {
        "Indexed "@ + total + " blobs (cached: "@ + decimal(cached as nat) + ", new: "@ + decimal(
            uploaded as nat,
        ) + ")"@
    }
}

/// The report of a finished run from whether saving the index failed, the
/// number of failed batches, of reused blob names and of uploaded ones.
pub fn index_outcome(save_failed: bool, failed_batches: usize, cached_count: usize, uploaded_count: usize) -> (res: IndexResult)
    requires
        cached_count + uploaded_count <= usize::MAX,
    ensures
        res.status@ == outcome_status(save_failed, failed_batches),
        res.message@ == outcome_message(save_failed, failed_batches, cached_count, uploaded_count),
        res.stats matches Some(st) && st.total_blobs == cached_count + uploaded_count
            && st.existing_blobs == cached_count && st.new_blobs == uploaded_count
            && st.failed_batches == (if failed_batches > 0 { Some(failed_batches) } else { None }),
{
    let total = cached_count + uploaded_count;
    let mut msg: Vec<char> = Vec::new();
    let status: &str;
    if save_failed {
        status = "error";
        push_str(&mut msg, "Failed to save index (indexed ");
        push_decimal(&mut msg, total);
        push_str(&mut msg, " blobs, ");
        push_decimal(&mut msg, failed_batches);
        push_str(&mut msg, " failed batches)");
    } else if failed_batches > 0 {
        status = "partial";
        push_str(&mut msg, "Indexed ");
        push_decimal(&mut msg, total);
        push_str(&mut msg, " blobs with ");
        push_decimal(&mut msg, failed_batches);
        push_str(&mut msg, " failed batches (cached: ");
        push_decimal(&mut msg, cached_count);
        push_str(&mut msg, ", new: ");
        push_decimal(&mut msg, uploaded_count);
        push_str(&mut msg, ")");
    } else {
        status = "success";
        push_str(&mut msg, "Indexed ");
        push_decimal(&mut msg, total);
        push_str(&mut msg, " blobs (cached: ");
        push_decimal(&mut msg, cached_count);
        push_str(&mut msg, ", new: ");
        push_decimal(&mut msg, uploaded_count);
        push_str(&mut msg, ")");
    }
    let failed = if failed_batches > 0 {
        Some(failed_batches)
    } else {
        None
    };
    IndexResult {
        status: status.to_owned(),
        message: string_from_chars(&msg),
        stats: Some(IndexStats { total_blobs: total, existing_blobs: cached_count, new_blobs: uploaded_count, failed_batches: failed }),
    }
}

/// The report when no indexable text file was found.
pub fn no_text_files_result() -> (res: IndexResult)
    ensures
        res.status@ == "error"@,
        res.message@ == "No text files found in project"@,
        res.stats is None,
{
    IndexResult { status: "error".to_owned(), message: "No text files found in project".to_owned(), stats: None }
}

/// The report when files were found but none could be processed.
pub fn no_files_processed_result() -> (res: IndexResult)
    ensures
        res.status@ == "error"@,
        res.message@ == "No files could be processed"@,
        res.stats is None,
{
    IndexResult { status: "error".to_owned(), message: "No files could be processed".to_owned(), stats: None }
}

// ---------------------------------------------------------------------------
// A run as a sequence of steps
// ---------------------------------------------------------------------------

/// Where an indexing run stands.
#[derive(Debug, PartialEq, Eq, Structural, Clone, Copy)]
pub enum IndexStage {
    /// Waiting for the scan of the project.
    Scanning,
    /// Waiting for the processed files.
    Processing,
    /// Waiting for the upload of the new blobs.
    Uploading,
    /// Waiting for the new index to be saved.
    Saving,
    /// Finished.
    Done,
}

/// Order of the stages: every step moves to a later one.
pub open spec fn index_stage_rank(s: IndexStage) -> nat {
    match s {
        IndexStage::Scanning => 0,
        IndexStage::Processing => 1,
        IndexStage::Uploading => 2,
        IndexStage::Saving => 3,
        IndexStage::Done => 4,
    }
}

/// What the caller reports.
pub enum IndexEvent {
    /// The project was scanned: the number of indexable files found.
    Scanned { file_count: usize },
    /// The files were processed against the previous index (see `plan_file`).
    Processed { results: Vec<ProcessedFile> },
    /// The new blobs were uploaded: the number of blob names the service
    /// returned and the number of failed batches.
    Uploaded { uploaded_count: usize, failed_batches: usize },
    /// Saving the new index succeeded or failed.
    Saved { ok: bool },
}

/// What the caller is to do next.
pub enum IndexAction {
    /// Scan the project for indexable files and report their number.
    Scan,
    /// Load the previous index (see `select_previous_index`), process the
    /// scanned files and report the results.
    Process,
    /// Upload these blobs and report the outcome.
    Upload { blobs: Vec<Blob> },
    /// Save this index and report whether it worked.
    Save { index: IndexData },
    /// The run is over with this report.
    Finish(IndexResult),
}

/// An indexing run in progress.
pub struct IndexRun {
    stage: IndexStage,
    config_hash: String,
    session_id: String,
    pending: Option<IndexData>,
    cached_count: usize,
    uploaded_count: usize,
    failed_batches: usize,
}

/// Plain values of a run: its stage, the fingerprint and session the new
/// index records, the new index while its blobs upload, and the counts.
pub struct IndexRunView {
    pub stage: IndexStage,
    pub config_hash: Seq<char>,
    pub session_id: Seq<char>,
    pub pending: Option<IndexData>,
    pub cached_count: usize,
    pub uploaded_count: usize,
    pub failed_batches: usize,
}

impl View for IndexRun {
    type V = IndexRunView;

    closed spec fn view(&self) -> IndexRunView {
        IndexRunView {
            stage: self.stage,
            config_hash: self.config_hash@,
            session_id: self.session_id@,
            pending: self.pending,
            cached_count: self.cached_count,
            uploaded_count: self.uploaded_count,
            failed_batches: self.failed_batches,
        }
    }
}

/// The event that a stage waits for.
pub open spec fn index_expects(stage: IndexStage, e: IndexEvent) -> bool {
    match stage {
        IndexStage::Scanning => e is Scanned,
        IndexStage::Processing => e is Processed,
        IndexStage::Uploading => e is Uploaded,
        IndexStage::Saving => e is Saved,
        IndexStage::Done => false,
    }
}

/// `d` is the new index built from the processed files `rs`.
pub open spec fn is_new_index(d: IndexData, config_hash: Seq<char>, session_id: Seq<char>, rs: Seq<ProcessedFile>) -> bool {
    &&& d.version == CURRENT_INDEX_VERSION
    &&& d.config_hash@ == config_hash
    &&& d.session_id matches Some(s) && s@ == session_id
    &&& d.entries.as_map() == entries_of(rs)
}

/// `r` is the report `index_outcome` gives.
pub open spec fn is_outcome(r: IndexResult, save_failed: bool, failed_batches: usize, cached: usize, uploaded: usize) -> bool {
    &&& r.status@ == outcome_status(save_failed, failed_batches)
    &&& r.message@ == outcome_message(save_failed, failed_batches, cached, uploaded)
    &&& r.stats matches Some(st) && st.total_blobs == cached + uploaded && st.existing_blobs == cached
        && st.new_blobs == uploaded && st.failed_batches == (if failed_batches > 0 { Some(failed_batches) } else { None })
}

impl IndexRun {
    #[verifier::type_invariant]
    spec fn consistent(&self) -> bool {
        &&& self.stage == IndexStage::Uploading ==> self.pending is Some
        &&& self.stage == IndexStage::Saving ==> self.cached_count + self.uploaded_count <= usize::MAX
    }

    /// Starts a run that records `config_hash` and `session_id` in the new
    /// index; the first action is the scan.
    pub fn start(config_hash: &str, session_id: &str) -> (res: (IndexRun, IndexAction))
        ensures
            res.0@.stage == IndexStage::Scanning,
            res.0@.config_hash == config_hash@,
            res.0@.session_id == session_id@,
            res.1 is Scan,
    {
        (
            IndexRun {
                stage: IndexStage::Scanning,
                config_hash: config_hash.to_owned(),
                session_id: session_id.to_owned(),
                pending: None,
                cached_count: 0,
                uploaded_count: 0,
                failed_batches: 0,
            },
            IndexAction::Scan,
        )
    }

    /// The current stage.
    pub fn stage(&self) -> (res: IndexStage)
        ensures
            res == self@.stage,
    {
        self.stage
    }

    /// Number of blob names reused from unchanged files (zero before the
    /// files are processed).
    pub fn cached_count(&self) -> (res: usize)
        ensures
            res == self@.cached_count,
    {
        self.cached_count
    }

    /// Takes the outcome of the last action and gives the next one: no
    /// indexable file or no processed file ends the run with an error;
    /// without new blobs the upload is skipped; after saving, the report
    /// (see `index_outcome`).
    pub fn step(&mut self, event: IndexEvent) -> (res: IndexAction)
        requires
            index_expects(old(self)@.stage, event),
            event matches IndexEvent::Processed { results } ==> reused_blob_count(results@) <= usize::MAX,
            event matches IndexEvent::Uploaded { uploaded_count, .. } ==> old(self)@.cached_count + uploaded_count
                <= usize::MAX,
        ensures
            index_stage_rank(final(self)@.stage) > index_stage_rank(old(self)@.stage),
            (res is Finish) <==> final(self)@.stage == IndexStage::Done,
            final(self)@.config_hash == old(self)@.config_hash,
            final(self)@.session_id == old(self)@.session_id,
            match event {
                IndexEvent::Scanned { file_count } => if file_count == 0 {
                    res matches IndexAction::Finish(r) && r.status@ == "error"@
                        && r.message@ == "No text files found in project"@ && r.stats is None
                } else {
                    final(self)@.stage == IndexStage::Processing && res is Process
                },
                IndexEvent::Processed { results } => if results@.len() == 0 {
                    res matches IndexAction::Finish(r) && r.status@ == "error"@
                        && r.message@ == "No files could be processed"@ && r.stats is None
                } else if blobs_to_upload(results@).len() == 0 {
                    &&& final(self)@.stage == IndexStage::Saving
                    &&& final(self)@.cached_count == reused_blob_count(results@)
                    &&& final(self)@.uploaded_count == 0
                    &&& final(self)@.failed_batches == 0
                    &&& res matches IndexAction::Save { index } && is_new_index(
                        index,
                        old(self)@.config_hash,
                        old(self)@.session_id,
                        results@,
                    )
                } else {
                    &&& final(self)@.stage == IndexStage::Uploading
                    &&& final(self)@.cached_count == reused_blob_count(results@)
                    &&& final(self)@.pending matches Some(index) && is_new_index(
                        index,
                        old(self)@.config_hash,
                        old(self)@.session_id,
                        results@,
                    )
                    &&& res matches IndexAction::Upload { blobs } && blob_views(blobs@) == blobs_to_upload(results@)
                },
                IndexEvent::Uploaded { uploaded_count, failed_batches } => {
                    &&& final(self)@.stage == IndexStage::Saving
                    &&& final(self)@.cached_count == old(self)@.cached_count
                    &&& final(self)@.uploaded_count == uploaded_count
                    &&& final(self)@.failed_batches == failed_batches
                    &&& res matches IndexAction::Save { index } && old(self)@.pending == Some(index)
                },
                IndexEvent::Saved { ok } => res matches IndexAction::Finish(r) && is_outcome(
                    r,
                    !ok,
                    old(self)@.failed_batches,
                    old(self)@.cached_count,
                    old(self)@.uploaded_count,
                ),
            },
    {
        proof {
            use_type_invariant(&*self);
        }
        match event {
            IndexEvent::Scanned { file_count } => {
                if file_count == 0 {
                    self.stage = IndexStage::Done;
                    IndexAction::Finish(no_text_files_result())
                } else {
                    self.stage = IndexStage::Processing;
                    IndexAction::Process
                }
            },
            IndexEvent::Processed { results } => {
                if results.len() == 0 {
                    self.stage = IndexStage::Done;
                    return IndexAction::Finish(no_files_processed_result());
                }
                let assembled = assemble_index(results, self.config_hash.as_str(), self.session_id.as_str());
                let AssembledIndex { index, cached_count, new_blobs } = assembled;
                self.cached_count = cached_count;
                if new_blobs.len() == 0 {
                    self.uploaded_count = 0;
                    self.failed_batches = 0;
                    self.stage = IndexStage::Saving;
                    IndexAction::Save { index }
                } else {
                    self.pending = Some(index);
                    self.stage = IndexStage::Uploading;
                    IndexAction::Upload { blobs: new_blobs }
                }
            },
            IndexEvent::Uploaded { uploaded_count, failed_batches } => {
                self.uploaded_count = uploaded_count;
                self.failed_batches = failed_batches;
                self.stage = IndexStage::Saving;
                let mut taken: Option<IndexData> = None;
                std::mem::swap(&mut taken, &mut self.pending);
                match taken {
                    Some(index) => IndexAction::Save { index },
                    None => IndexAction::Save { index: IndexData::default() },
                }
            },
            IndexEvent::Saved { ok } => {
                self.stage = IndexStage::Done;
                IndexAction::Finish(index_outcome(!ok, self.failed_batches, self.cached_count, self.uploaded_count))
            },
        }
    }
}

} // verus!
