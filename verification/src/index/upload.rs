//! Upload decisions: whether a batch may be sent, what to do after each
//! attempt (finish or retry after a wait), and the bookkeeping of a run of
//! concurrent batch uploads. The caller performs the requests and waits.

use vstd::prelude::*;

use crate::index::manager::{total_size, string_views, Blob, MAX_BATCH_SIZE};
use crate::strategy::ErrorType;
use crate::text::{contains_seq, contains_str, parse_u64, parsed_u64};

verus! {

/// Number of attempts made for one batch.
pub const MAX_UPLOAD_ATTEMPTS: u32 = 3;

/// Result of uploading one batch.
#[derive(Debug)]
pub struct BatchUploadResult {
    /// Names the service assigned to the uploaded blobs (empty on failure).
    pub blob_names: Vec<String>,
    /// Time spent over all attempts, in milliseconds.
    pub latency_ms: u64,
    /// Why the upload failed, if it did.
    pub error_type: Option<ErrorType>,
    /// Whether the upload succeeded.
    pub success: bool,
}

/// Checks a batch against the byte limit before any request: a batch over
/// `MAX_BATCH_SIZE` bytes fails at once as a client error with no latency.
pub fn precheck_batch(blobs: &Vec<Blob>) -> (res: Option<BatchUploadResult>)
    requires
        total_size(blobs@) <= usize::MAX,
    ensures
        total_size(blobs@) > MAX_BATCH_SIZE <==> res is Some,
        res matches Some(r) ==> (!r.success && r.error_type == Some(ErrorType::ClientError)
            && r.latency_ms == 0 && r.blob_names@.len() == 0),
{
    let n = blobs.len();
    let mut size: usize = 0;
    let mut i: usize = 0;
    while i < n
        invariant
            n == blobs@.len(),
            i <= n,
            total_size(blobs@) <= usize::MAX,
            size == total_size(blobs@.take(i as int)),
        decreases n - i,
    {
        proof {
            assert(blobs@.take(i + 1).drop_last() =~= blobs@.take(i as int));
            crate::index::manager::lemma_total_size_prefix(blobs@, i + 1);
        }
        let b = &blobs[i];
        size = size + b.content.as_str().len() + b.path.as_str().len();
        i = i + 1;
    }
    assert(blobs@.take(n as int) =~= blobs@);
    if size > MAX_BATCH_SIZE {
        Some(BatchUploadResult { blob_names: Vec::new(), latency_ms: 0, error_type: Some(ErrorType::ClientError), success: false })
    } else {
        None
    }
}

/// What one attempt to send a batch produced.
pub enum AttemptOutcome {
    /// The service answered with `status`. `retry_after_secs` is the value of
    /// the `Retry-After` header (1 when absent or unreadable). `blob_names` is
    /// the parsed list of blob names when the status is a success and the
    /// body could be read as one.
    Response { status: u16, retry_after_secs: u64, blob_names: Option<Vec<String>> },
    /// No answer arrived; `timed_out` tells whether the request timed out.
    Transport { timed_out: bool },
}

/// Seconds to wait as given by a `Retry-After` header value: the value when
/// it is an unsigned integer, else (or without the header) one second.
pub open spec fn retry_after_value(header: Option<Seq<char>>) -> u64 {
    match header {
        Some(h) => match parsed_u64(h) {
            Some(v) => v,
            None => 1,
        },
        None => 1,
    }
}

/// Reads the `Retry-After` header value (`None`: absent or not text).
pub fn retry_after_secs(header: Option<&str>) -> (res: u64)
    ensures
        res == retry_after_value(match header { Some(h) => Some(h@), None => None }),
{
    match header {
        Some(h) => match parse_u64(h) {
            Some(v) => v,
            None => 1,
        },
        None => 1,
    }
}

/// A failed request counts as a timeout when its error message mentions
/// "timeout" or "timed out".
pub fn is_timeout_message(message: &str) -> (res: bool)
    ensures
        res == (contains_seq(message@, "timeout"@) || contains_seq(message@, "timed out"@)),
{
    contains_str(message, "timeout") || contains_str(message, "timed out")
}

/// The state of the attempts for one batch.
pub struct UploadAttempts {
    /// Index of the current attempt, from zero.
    pub attempt: u32,
    /// Time spent so far, in milliseconds.
    pub total_latency_ms: u64,
    /// Why the previous attempt failed, if one did.
    pub last_error: Option<ErrorType>,
}

/// What to do after an attempt.
pub enum UploadStep {
    /// Wait `wait_ms` milliseconds, then make the next attempt.
    Retry { wait_ms: u64 },
    /// Stop with this result.
    Finished(BatchUploadResult),
}

/// `status` is a 2xx success.
pub open spec fn is_success_status(status: u16) -> bool {
    200 <= status <= 299
}

/// `status` is a 5xx server error.
pub open spec fn is_server_error_status(status: u16) -> bool {
    500 <= status <= 599
}

/// Wait before retrying attempt `attempt` after a server or transport error:
/// one second, doubled for each earlier attempt.
pub open spec fn backoff_ms(attempt: u32) -> nat {
    1000 * vstd::arithmetic::power2::pow2(attempt as nat)
}

/// The error reported for a final, unsuccessful response.
pub open spec fn response_error(status: u16) -> ErrorType {
    if status == 429 {
        ErrorType::RateLimit
    } else if is_server_error_status(status) {
        ErrorType::ServerError
    } else {
        ErrorType::ClientError
    }
}

/// The step taken after an attempt, as a function of the attempt index,
/// the outcome and the latency accumulated including this attempt.
pub open spec fn step_is(
    attempt: u32,
    last_error: Option<ErrorType>,
    outcome: AttemptOutcome,
    total: u64,
    step: UploadStep,
    next_attempt: u32,
    next_error: Option<ErrorType>,
) -> bool {
    let last = attempt + 1 >= MAX_UPLOAD_ATTEMPTS;
    match outcome {
        AttemptOutcome::Response { status, retry_after_secs, blob_names } => {
            if status == 401 || status == 403 || status == 400 {
                step matches UploadStep::Finished(r) && !r.success && r.error_type == Some(ErrorType::ClientError)
                    && r.latency_ms == total && r.blob_names@.len() == 0
            } else if is_success_status(status) && blob_names is Some {
                step matches UploadStep::Finished(r) && r.success && r.error_type is None
                    && r.latency_ms == total && string_views(r.blob_names@) == string_views(blob_names->0@)
            } else if status == 429 && !last {
                step matches UploadStep::Retry { wait_ms } && wait_ms == retry_after_secs * 1000
                    && next_attempt == attempt + 1 && next_error == Some(ErrorType::RateLimit)
            } else if is_server_error_status(status) && !last {
                step matches UploadStep::Retry { wait_ms } && wait_ms == backoff_ms(attempt)
                    && next_attempt == attempt + 1 && next_error == Some(ErrorType::ServerError)
            } else {
                step matches UploadStep::Finished(r) && !r.success && r.error_type == Some(response_error(status))
                    && r.latency_ms == total && r.blob_names@.len() == 0
            }
        },
        AttemptOutcome::Transport { timed_out } => {
            let err = if timed_out { ErrorType::Timeout } else { ErrorType::NetworkError };
            if !last {
                step matches UploadStep::Retry { wait_ms } && wait_ms == backoff_ms(attempt)
                    && next_attempt == attempt + 1 && next_error == Some(err)
            } else {
                step matches UploadStep::Finished(r) && !r.success && r.error_type == Some(err)
                    && r.latency_ms == total && r.blob_names@.len() == 0
            }
        },
    }
}

impl UploadAttempts {
    /// Before the first attempt.
    pub fn new() -> (res: Self)
        ensures
            res.attempt == 0,
            res.total_latency_ms == 0,
            res.last_error is None,
    {
        UploadAttempts { attempt: 0, total_latency_ms: 0, last_error: None }
    }

    /// Decides what follows an attempt that took `duration_ms` and produced
    /// `outcome`: authentication and request errors (401, 403, 400) finish
    /// at once; a successful, readable reply finishes with its blob names;
    /// 429 is retried after `Retry-After` seconds and 5xx or a failed
    /// connection after an exponential backoff, while attempts remain;
    /// anything else finishes with its error.
    pub fn step(&mut self, outcome: AttemptOutcome, duration_ms: u64) -> (res: UploadStep)
        requires
            old(self).attempt < MAX_UPLOAD_ATTEMPTS,
            old(self).total_latency_ms + duration_ms <= u64::MAX,
            outcome matches AttemptOutcome::Response { status, retry_after_secs, .. } ==> (status == 429
                && old(self).attempt + 1 < MAX_UPLOAD_ATTEMPTS ==> retry_after_secs * 1000 <= u64::MAX),
        ensures
            final(self).total_latency_ms == old(self).total_latency_ms + duration_ms,
            step_is(
                old(self).attempt,
                old(self).last_error,
                outcome,
                final(self).total_latency_ms,
                res,
                final(self).attempt,
                final(self).last_error,
            ),
            final(self).attempt < MAX_UPLOAD_ATTEMPTS,
            res is Retry ==> final(self).attempt == old(self).attempt + 1,
    {
        proof {
            vstd::arithmetic::power2::lemma2_to64();
        }
        self.total_latency_ms = self.total_latency_ms + duration_ms;
        let last = self.attempt + 1 >= MAX_UPLOAD_ATTEMPTS;
        match outcome {
            AttemptOutcome::Response { status, retry_after_secs, blob_names } => {
                if status == 401 || status == 403 || status == 400 {
                    return UploadStep::Finished(BatchUploadResult {
                        blob_names: Vec::new(),
                        latency_ms: self.total_latency_ms,
                        error_type: Some(ErrorType::ClientError),
                        success: false,
                    });
                }
                if 200 <= status && status <= 299 {
                    match blob_names {
                        Some(names) => {
                            return UploadStep::Finished(BatchUploadResult {
                                blob_names: names,
                                latency_ms: self.total_latency_ms,
                                error_type: None,
                                success: true,
                            });
                        },
                        None => {},
                    }
                }
                if status == 429 && !last {
                    let wait_ms = retry_after_secs * 1000;
                    self.last_error = Some(ErrorType::RateLimit);
                    self.attempt = self.attempt + 1;
                    return UploadStep::Retry { wait_ms };
                }
                if 500 <= status && status <= 599 && !last {
                    let wait_ms: u64 = if self.attempt == 0 { 1000 } else { 2000 };
                    self.last_error = Some(ErrorType::ServerError);
                    self.attempt = self.attempt + 1;
                    return UploadStep::Retry { wait_ms };
                }
                let error_type = if status == 429 {
                    ErrorType::RateLimit
                } else if 500 <= status && status <= 599 {
                    ErrorType::ServerError
                } else {
                    ErrorType::ClientError
                };
                UploadStep::Finished(BatchUploadResult {
                    blob_names: Vec::new(),
                    latency_ms: self.total_latency_ms,
                    error_type: Some(error_type),
                    success: false,
                })
            },
            AttemptOutcome::Transport { timed_out } => {
                let err = if timed_out { ErrorType::Timeout } else { ErrorType::NetworkError };
                self.last_error = Some(err);
                if !last {
                    let wait_ms: u64 = if self.attempt == 0 { 1000 } else { 2000 };
                    self.attempt = self.attempt + 1;
                    UploadStep::Retry { wait_ms }
                } else {
                    UploadStep::Finished(BatchUploadResult {
                        blob_names: Vec::new(),
                        latency_ms: self.total_latency_ms,
                        error_type: self.last_error,
                        success: false,
                    })
                }
            },
        }
    }
}

// ---------------------------------------------------------------------------
// A run of concurrent batch uploads
// ---------------------------------------------------------------------------

/// The blob names of the successful results, in the order they were recorded.
pub open spec fn succeeded_names(outcomes: Seq<(bool, Seq<Seq<char>>)>) -> Seq<Seq<char>>
    decreases outcomes.len(),
{
    if outcomes.len() == 0 {
        Seq::empty()
    } else {
        succeeded_names(outcomes.drop_last()) + if outcomes.last().0 {
            outcomes.last().1
        } else {
            Seq::empty()
        }
    }
}

/// The number of failed results.
pub open spec fn failure_count(outcomes: Seq<(bool, Seq<Seq<char>>)>) -> nat
    decreases outcomes.len(),
{
    if outcomes.len() == 0 {
        0
    } else {
        failure_count(outcomes.drop_last()) + if outcomes.last().0 {
            0nat
        } else {
            1nat
        }
    }
}

proof fn lemma_failure_count_le(outcomes: Seq<(bool, Seq<Seq<char>>)>)
    ensures
        failure_count(outcomes) <= outcomes.len(),
    decreases outcomes.len(),
{
    if outcomes.len() > 0 {
        lemma_failure_count_le(outcomes.drop_last());
    }
}

/// Progress of uploading `total_batches` batches, at most a given number
/// at a time: batches are started in order; results are recorded as they
/// arrive.
pub struct UploadProgress {
    /// Number of batches.
    pub total_batches: usize,
    /// Number of batches started so far (the next one to start).
    pub next_batch: usize,
    /// Number of started batches whose result has not been recorded.
    pub active: usize,
    /// Blob names of the successful batches.
    pub uploaded_blob_names: Vec<String>,
    /// Number of failed batches.
    pub failed_batch_count: usize,
    /// Every recorded result: success and blob names.
    pub outcomes: Ghost<Seq<(bool, Seq<Seq<char>>)>>,
}

impl UploadProgress {
    /// What holds of the progress at every step.
    pub open spec fn wf(&self) -> bool {
        &&& self.next_batch <= self.total_batches
        &&& self.active <= self.next_batch
        &&& self.outcomes@.len() == self.next_batch - self.active
        &&& string_views(self.uploaded_blob_names@) == succeeded_names(self.outcomes@)
        &&& self.failed_batch_count == failure_count(self.outcomes@)
    }

    /// No batch started yet.
    pub fn new(total_batches: usize) -> (res: Self)
        ensures
            res.wf(),
            res.total_batches == total_batches,
            res.next_batch == 0,
            res.active == 0,
            res.outcomes@.len() == 0,
    {
        let res = UploadProgress {
            total_batches,
            next_batch: 0,
            active: 0,
            uploaded_blob_names: Vec::new(),
            failed_batch_count: 0,
            outcomes: Ghost(Seq::empty()),
        };
        assert(string_views(res.uploaded_blob_names@) =~= Seq::<Seq<char>>::empty());
        res
    }

    /// Every batch has been started and every result recorded.
    pub fn is_done(&self) -> (res: bool)
        ensures
            res == (self.next_batch == self.total_batches && self.active == 0),
    {
        self.next_batch == self.total_batches && self.active == 0
    }

    /// How many batches to start now so that at most `concurrency` run at once.
    pub fn batches_to_start(&self, concurrency: usize) -> (res: usize)
        requires
            self.wf(),
        ensures
            self.active < concurrency ==> res == vstd::math::min(
                (concurrency - self.active) as int,
                (self.total_batches - self.next_batch) as int,
            ),
            self.active >= concurrency ==> res == 0,
    {
        if self.active >= concurrency {
            return 0;
        }
        let room = concurrency - self.active;
        let remaining = self.total_batches - self.next_batch;
        if room < remaining {
            room
        } else {
            remaining
        }
    }

    /// Records that `count` more batches were started.
    pub fn start(&mut self, count: usize)
        requires
            old(self).wf(),
            old(self).next_batch + count <= old(self).total_batches,
        ensures
            final(self).wf(),
            final(self).next_batch == old(self).next_batch + count,
            final(self).active == old(self).active + count,
            final(self).total_batches == old(self).total_batches,
            final(self).outcomes@ == old(self).outcomes@,
    {
        self.next_batch = self.next_batch + count;
        self.active = self.active + count;
    }

    /// Records the result of a started batch: its blob names are kept when
    /// it succeeded; otherwise it counts as failed.
    pub fn record(&mut self, result: BatchUploadResult)
        requires
            old(self).wf(),
            old(self).active > 0,
        ensures
            final(self).wf(),
            final(self).next_batch == old(self).next_batch,
            final(self).active == old(self).active - 1,
            final(self).total_batches == old(self).total_batches,
            final(self).outcomes@ == old(self).outcomes@.push((result.success, string_views(result.blob_names@))),
    {
        let ghost entry = (result.success, string_views(result.blob_names@));
        let ghost old_outcomes = self.outcomes@;
        proof {
            assert(old_outcomes.push(entry).drop_last() =~= old_outcomes);
            lemma_failure_count_le(old_outcomes);
        }
        self.active = self.active - 1;
        if result.success {
            let names = result.blob_names;
            let n = names.len();
            let mut i: usize = 0;
            let ghost before = string_views(self.uploaded_blob_names@);
            while i < n
                invariant
                    n == names@.len(),
                    i <= n,
                    string_views(self.uploaded_blob_names@) == before + string_views(names@).take(i as int),
                    self.next_batch == old(self).next_batch,
                    self.active == old(self).active - 1,
                    self.total_batches == old(self).total_batches,
                    self.failed_batch_count == old(self).failed_batch_count,
                    self.outcomes == old(self).outcomes,
                decreases n - i,
            {
                let c = names[i].clone();
                assert(c@ == names@[i as int]@);
                let ghost prev = self.uploaded_blob_names@;
                self.uploaded_blob_names.push(c);
                i = i + 1;
                proof {
                    assert(string_views(self.uploaded_blob_names@) =~= string_views(prev).push(c@));
                    assert(string_views(names@).take(i as int) =~= string_views(names@).take(i - 1).push(names@[i - 1]@));
                }
            }
            assert(string_views(names@).take(n as int) =~= string_views(names@));
        } else {
            self.failed_batch_count = self.failed_batch_count + 1;
        }
        self.outcomes = Ghost(old_outcomes.push(entry));
    }
}

/// At the end of a run, every batch has exactly one recorded result: the
/// failed count is the number of failures among them and the uploaded names
/// are those of the successes.
pub proof fn law_upload_run_complete(p: UploadProgress)
    requires
        p.wf(),
        p.next_batch == p.total_batches,
        p.active == 0,
    ensures
        p.outcomes@.len() == p.total_batches,
        p.failed_batch_count == failure_count(p.outcomes@),
        p.failed_batch_count <= p.total_batches,
        string_views(p.uploaded_blob_names@) == succeeded_names(p.outcomes@),
{
    lemma_failure_count_le(p.outcomes@);
}

} // verus!
