//! The upload strategy: why an upload attempt failed, and the adaptive
//! (AIMD) choice of concurrency and timeout while batches upload.
//!
//! The strategy starts from the static parameters chosen by project size.
//! When adaptive, it warms up at one request at a time and then jumps to
//! the size's concurrency once a window of outcomes succeeds; afterwards a
//! window that succeeds with healthy latency adds one request, while a
//! window with a low success rate or a latency spike, or any rate-limited
//! outcome, halves the concurrency and adds half to the timeout. The
//! concurrency stays between 1 and 8 and the timeout between 15 s and 180 s.
//! A command-line concurrency or timeout is kept fixed; without adaptation
//! both stay at their static values.

use vstd::prelude::*;

use crate::config::{get_upload_strategy, upload_strategy_for, CliOverrides, UploadStrategy};

verus! {

/// Why an upload attempt failed.
#[derive(Debug, Clone, Copy, PartialEq, Eq, Structural)]
pub enum ErrorType {
    /// The request timed out.
    Timeout,
    /// The service answered 429 Too Many Requests.
    RateLimit,
    /// The service answered with a 5xx status.
    ServerError,
    /// The request was refused (4xx other than 429, or an unusable reply).
    ClientError,
    /// The connection failed for another reason.
    NetworkError,
}

/// Fewest concurrent uploads the adaptation goes down to.
pub const MIN_CONCURRENCY: usize = 1;

/// Most concurrent uploads the adaptation goes up to.
pub const MAX_CONCURRENCY: usize = 8;

/// Shortest timeout the adaptation uses, in milliseconds.
pub const MIN_TIMEOUT_MS: u64 = 15000;

/// Longest timeout the adaptation goes up to, in milliseconds.
pub const MAX_TIMEOUT_MS: u64 = 180000;

/// Number of outcomes over which the success rate and latency are judged.
pub const WINDOW: u32 = 5;

/// Number of windows after which warm-up ends even without a good window.
pub const WARMUP_WINDOWS: u32 = 2;

/// The state of the strategy.
pub struct AdaptiveStrategy {
    batch_size: usize,
    concurrency: usize,
    timeout_ms: u64,
    target_concurrency: usize,
    adapt_concurrency: bool,
    adapt_timeout: bool,
    warming_up: bool,
    warmup_windows: u32,
    window_total: u32,
    window_success: u32,
    window_max_latency: u64,
}

/// Plain values of the strategy.
pub struct StrategyView {
    pub batch_size: usize,
    pub concurrency: usize,
    pub timeout_ms: u64,
    pub target_concurrency: usize,
    pub adapt_concurrency: bool,
    pub adapt_timeout: bool,
    pub warming_up: bool,
    pub warmup_windows: u32,
    pub window_total: u32,
    pub window_success: u32,
    pub window_max_latency: u64,
}

impl View for AdaptiveStrategy {
    type V = StrategyView;

    closed spec fn view(&self) -> StrategyView {
        StrategyView {
            batch_size: self.batch_size,
            concurrency: self.concurrency,
            timeout_ms: self.timeout_ms,
            target_concurrency: self.target_concurrency,
            adapt_concurrency: self.adapt_concurrency,
            adapt_timeout: self.adapt_timeout,
            warming_up: self.warming_up,
            warmup_windows: self.warmup_windows,
            window_total: self.window_total,
            window_success: self.window_success,
            window_max_latency: self.window_max_latency,
        }
    }
}

/// What holds of the strategy at every step: at least one upload at a
/// time; adapted parameters within their bounds; a window never full.
pub open spec fn strategy_wf(v: StrategyView) -> bool {
    &&& v.concurrency >= MIN_CONCURRENCY
    &&& v.adapt_concurrency ==> v.concurrency <= MAX_CONCURRENCY
    &&& v.adapt_timeout ==> MIN_TIMEOUT_MS <= v.timeout_ms <= MAX_TIMEOUT_MS
    &&& MIN_CONCURRENCY <= v.target_concurrency <= MAX_CONCURRENCY
    &&& v.window_total < WINDOW
    &&& v.window_success <= v.window_total
    &&& v.warmup_windows < WARMUP_WINDOWS
    &&& v.warming_up ==> v.adapt_concurrency
}

/// The initial strategy for `blob_count` blobs.
pub open spec fn initial_strategy(blob_count: usize, overrides: CliOverrides, adaptive: bool) -> StrategyView {
    let s = get_upload_strategy_spec(blob_count);
    let adapt_concurrency = adaptive && overrides.upload_concurrency is None;
    StrategyView {
        batch_size: s.0,
        concurrency: match overrides.upload_concurrency {
            Some(c) => if c == 0 { 1 } else { c },
            None => if adaptive { 1 } else { s.1 },
        },
        timeout_ms: match overrides.upload_timeout_secs {
            Some(t) => if t * 1000 > u64::MAX { u64::MAX } else { (t * 1000) as u64 },
            None => s.2,
        },
        target_concurrency: s.1,
        adapt_concurrency,
        adapt_timeout: adaptive && overrides.upload_timeout_secs is None,
        warming_up: adapt_concurrency,
        warmup_windows: 0,
        window_total: 0,
        window_success: 0,
        window_max_latency: 0,
    }
}

/// Batch size, concurrency and timeout that `get_upload_strategy` gives.
pub open spec fn get_upload_strategy_spec(n: usize) -> (usize, usize, u64) {
    if n < 100 {
        (10, 1, 30000)
    } else if n < 500 {
        (30, 2, 45000)
    } else if n < 2000 {
        (50, 3, 60000)
    } else {
        (70, 4, 90000)
    }
}

/// Halves the adapted concurrency (at least 1) and adds half to the adapted
/// timeout (at most the maximum); ends warm-up.
pub open spec fn decreased(v: StrategyView) -> StrategyView {
    StrategyView {
        concurrency: if v.adapt_concurrency {
            if v.concurrency / 2 < MIN_CONCURRENCY { MIN_CONCURRENCY } else { v.concurrency / 2 }
        } else {
            v.concurrency
        },
        timeout_ms: if v.adapt_timeout {
            if v.timeout_ms + v.timeout_ms / 2 > MAX_TIMEOUT_MS {
                MAX_TIMEOUT_MS
            } else {
                (v.timeout_ms + v.timeout_ms / 2) as u64
            }
        } else {
            v.timeout_ms
        },
        warming_up: false,
        warmup_windows: 0,
        ..v
    }
}

/// Adds one to the adapted concurrency (at most the maximum).
pub open spec fn increased(v: StrategyView) -> StrategyView {
    StrategyView {
        concurrency: if v.adapt_concurrency && v.concurrency < MAX_CONCURRENCY {
            (v.concurrency + 1) as usize
        } else {
            v.concurrency
        },
        ..v
    }
}

/// An empty window.
pub open spec fn window_reset(v: StrategyView) -> StrategyView {
    StrategyView { window_total: 0, window_success: 0, window_max_latency: 0, ..v }
}

/// More than 95% of the window succeeded.
pub open spec fn rate_good(total: u32, success: u32) -> bool {
    success * 100 > total * 95
}

/// Less than 70% of the window succeeded.
pub open spec fn rate_bad(total: u32, success: u32) -> bool {
    success * 100 < total * 70
}

/// Some latency of the window passed 80% of the timeout.
pub open spec fn latency_spike(max_latency: u64, timeout_ms: u64) -> bool {
    max_latency * 5 > timeout_ms * 4
}

/// Every latency of the window stayed within half the timeout.
pub open spec fn latency_healthy(max_latency: u64, timeout_ms: u64) -> bool {
    max_latency * 2 <= timeout_ms
}

/// The strategy after recording one outcome.
pub open spec fn recorded(v: StrategyView, success: bool, latency_ms: u64, error: Option<ErrorType>) -> StrategyView {
    if !v.adapt_concurrency && !v.adapt_timeout {
        v
    } else if error == Some(ErrorType::RateLimit) {
        window_reset(decreased(v))
    } else {
        let total = (v.window_total + 1) as u32;
        let succ = (if success { v.window_success + 1 } else { v.window_success as int }) as u32;
        let maxl = if latency_ms > v.window_max_latency { latency_ms } else { v.window_max_latency };
        let w = StrategyView { window_total: total, window_success: succ, window_max_latency: maxl, ..v };
        if total < WINDOW {
            w
        } else if rate_bad(total, succ) || latency_spike(maxl, v.timeout_ms) {
            window_reset(decreased(w))
        } else if v.warming_up {
            if rate_good(total, succ) {
                window_reset(StrategyView { concurrency: v.target_concurrency, warming_up: false, warmup_windows: 0, ..w })
            } else if v.warmup_windows + 1 >= WARMUP_WINDOWS {
                window_reset(StrategyView { warming_up: false, warmup_windows: 0, ..w })
            } else {
                window_reset(StrategyView { warmup_windows: (v.warmup_windows + 1) as u32, ..w })
            }
        } else if rate_good(total, succ) && latency_healthy(maxl, v.timeout_ms) {
            window_reset(increased(w))
        } else {
            window_reset(w)
        }
    }
}

impl AdaptiveStrategy {
    #[verifier::type_invariant]
    spec fn inv(&self) -> bool {
        strategy_wf(self@)
    }

    /// The strategy for uploading `blob_count` blobs: the static parameters
    /// for that size, with a command-line concurrency (at least 1) or timeout
    /// (seconds) kept fixed; when `adaptive`, the concurrency not given on
    /// the command line starts at 1 for warm-up.
    pub fn new(blob_count: usize, overrides: &CliOverrides, adaptive: bool) -> (res: Self)
        ensures
            res@ == initial_strategy(blob_count, *overrides, adaptive),
    {
        let s: UploadStrategy = get_upload_strategy(blob_count);
        let adapt_concurrency = adaptive && overrides.upload_concurrency.is_none();
        let adapt_timeout = adaptive && overrides.upload_timeout_secs.is_none();
        let concurrency: usize = match overrides.upload_concurrency {
            Some(c) => if c == 0 {
                1
            } else {
                c
            },
            None => if adaptive {
                1
            } else {
                s.concurrency
            },
        };
        let timeout_ms: u64 = match overrides.upload_timeout_secs {
            Some(t) => match t.checked_mul(1000) {
                Some(ms) => ms,
                None => u64::MAX,
            },
            None => s.timeout_ms,
        };
        AdaptiveStrategy {
            batch_size: s.batch_size,
            concurrency,
            timeout_ms,
            target_concurrency: s.concurrency,
            adapt_concurrency,
            adapt_timeout,
            warming_up: adapt_concurrency,
            warmup_windows: 0,
            window_total: 0,
            window_success: 0,
            window_max_latency: 0,
        }
    }

    /// Blobs per batch.
    pub fn batch_size(&self) -> (res: usize)
        ensures
            res == self@.batch_size,
    {
        self.batch_size
    }

    /// Uploads to run at once (at least 1).
    pub fn concurrency(&self) -> (res: usize)
        ensures
            res == self@.concurrency,
            res >= 1,
    {
        proof {
            use_type_invariant(self);
        }
        self.concurrency
    }

    /// Timeout of one upload request, in milliseconds.
    pub fn timeout_ms(&self) -> (res: u64)
        ensures
            res == self@.timeout_ms,
    {
        self.timeout_ms
    }

    fn decrease(&mut self)
        ensures
            final(self)@ == decreased(old(self)@),
    {
        proof {
            use_type_invariant(&*self);
        }
        if self.adapt_concurrency {
            let half = self.concurrency / 2;
            self.concurrency = if half < MIN_CONCURRENCY { MIN_CONCURRENCY } else { half };
        }
        if self.adapt_timeout {
            let longer = self.timeout_ms + self.timeout_ms / 2;
            self.timeout_ms = if longer > MAX_TIMEOUT_MS { MAX_TIMEOUT_MS } else { longer };
        }
        self.warming_up = false;
        self.warmup_windows = 0;
    }

    /// Records the outcome of one batch upload and adapts the parameters
    /// (see `recorded`).
    pub fn record_outcome(&mut self, success: bool, latency_ms: u64, error_type: Option<ErrorType>)
        ensures
            final(self)@ == recorded(old(self)@, success, latency_ms, error_type),
    {
        proof {
            use_type_invariant(&*self);
        }
        if !self.adapt_concurrency && !self.adapt_timeout {
            return;
        }
        if error_type == Some(ErrorType::RateLimit) {
            self.window_success = 0;
            self.window_total = 0;
            self.window_max_latency = 0;
            self.decrease();
            return;
        }
        let total = self.window_total + 1;
        let succ = if success {
            self.window_success + 1
        } else {
            self.window_success
        };
        let maxl = if latency_ms > self.window_max_latency {
            latency_ms
        } else {
            self.window_max_latency
        };
        if total < WINDOW {
            self.window_total = total;
            self.window_success = succ;
            self.window_max_latency = maxl;
            return;
        }
        let bad = (succ as u64) * 100 < (total as u64) * 70;
        let spike = (maxl as u128) * 5 > (self.timeout_ms as u128) * 4;
        let good = (succ as u64) * 100 > (total as u64) * 95;
        let healthy = (maxl as u128) * 2 <= (self.timeout_ms as u128);
        self.window_success = 0;
        self.window_total = 0;
        self.window_max_latency = 0;
        if bad || spike {
            self.decrease();
        } else if self.warming_up {
            if good {
                self.concurrency = self.target_concurrency;
                self.warming_up = false;
                self.warmup_windows = 0;
            } else if self.warmup_windows + 1 >= WARMUP_WINDOWS {
                self.warming_up = false;
                self.warmup_windows = 0;
            } else {
                self.warmup_windows = self.warmup_windows + 1;
            }
        } else if good && healthy {
            if self.adapt_concurrency && self.concurrency < MAX_CONCURRENCY {
                self.concurrency = self.concurrency + 1;
            }
        }
    }
}

/// The adapted parameters stay within their bounds and at least one upload
/// runs at a time, whatever outcomes are recorded; without adaptation the
/// concurrency and timeout never change.
pub proof fn law_strategy_bounds(v: StrategyView, success: bool, latency_ms: u64, error: Option<ErrorType>)
    requires
        strategy_wf(v),
    ensures
        strategy_wf(recorded(v, success, latency_ms, error)),
        !v.adapt_concurrency ==> recorded(v, success, latency_ms, error).concurrency == v.concurrency,
        !v.adapt_timeout ==> recorded(v, success, latency_ms, error).timeout_ms == v.timeout_ms,
        recorded(v, success, latency_ms, error).timeout_ms >= v.timeout_ms,
{
}

/// The concurrency rises only when a window of outcomes has just completed
/// with more than 95% of its uploads successful and no rate limit; outside
/// warm-up it rises by one at most, and only when every latency of the
/// window stayed within half the timeout. A window with a slower upload
/// never raises it.
pub proof fn law_increase_needs_healthy_window(v: StrategyView, success: bool, latency_ms: u64, error: Option<ErrorType>)
    requires
        strategy_wf(v),
    ensures
        ({
            let r = recorded(v, success, latency_ms, error);
            let succ: int = v.window_success + if success { 1int } else { 0int };
            let maxl: int = if latency_ms > v.window_max_latency { latency_ms as int } else { v.window_max_latency as int };
            r.concurrency > v.concurrency ==> {
                &&& error != Some(ErrorType::RateLimit)
                &&& v.window_total + 1 == WINDOW
                &&& succ * 100 > WINDOW * 95
                &&& !v.warming_up ==> r.concurrency == v.concurrency + 1 && maxl * 2 <= v.timeout_ms
            }
        }),
        !v.warming_up ==> recorded(v, success, latency_ms, error).concurrency <= v.concurrency + 1,
{
}

/// A failed upload never raises the concurrency or lowers the timeout.
pub proof fn law_failure_never_speeds_up(v: StrategyView, latency_ms: u64, error: Option<ErrorType>)
    requires
        strategy_wf(v),
        !v.warming_up,
    ensures
        recorded(v, false, latency_ms, error).concurrency <= v.concurrency,
        recorded(v, false, latency_ms, error).timeout_ms >= v.timeout_ms,
{
}

/// A rate-limited outcome never raises the concurrency and, when adapted,
/// halves it; a window judged bad does the same.
pub proof fn law_rate_limit_backs_off(v: StrategyView, latency_ms: u64)
    requires
        strategy_wf(v),
        v.adapt_concurrency,
    ensures
        recorded(v, false, latency_ms, Some(ErrorType::RateLimit)).concurrency == if v.concurrency / 2 < 1 {
            1
        } else {
            v.concurrency / 2
        },
{
}

/// The initial strategy holds the invariant, and uses the static
/// parameters of `get_upload_strategy` when not adaptive and not overridden.
pub proof fn law_initial_strategy(blob_count: usize, overrides: CliOverrides, adaptive: bool, s: UploadStrategy)
    requires
        upload_strategy_for(blob_count, s),
    ensures
        strategy_wf(initial_strategy(blob_count, overrides, adaptive)),
        initial_strategy(blob_count, overrides, adaptive).batch_size == s.batch_size,
        !adaptive && overrides.upload_concurrency is None ==> initial_strategy(blob_count, overrides, adaptive).concurrency
            == s.concurrency,
        overrides.upload_timeout_secs is None ==> initial_strategy(blob_count, overrides, adaptive).timeout_ms
            == s.timeout_ms,
{
}

} // verus!
