//! Answering a search: index the project, send the search request with the
//! blob names of the index, and on a failed search force a full re-upload
//! and try once more. The caller performs each action and reports what came
//! of it; the decisions and messages are here.

use vstd::prelude::*;

use crate::index::manager::IndexResult;
use crate::text::{chars_of, push_str, string_from_chars};

verus! {

/// Answer given when the service returns no relevant context.
pub open spec fn no_context_answer() -> Seq<char> {
    "No relevant code context found for your query."@
}

/// The answer to a search from the service's formatted retrieval: the text
/// when present and not empty, else a fixed sentence.
pub fn search_answer(formatted: Option<String>) -> (res: String)
    ensures
        formatted matches Some(f) && f@.len() > 0 ==> res@ == formatted.unwrap()@,
        !(formatted matches Some(f) && f@.len() > 0) ==> res@ == no_context_answer(),
{
    match formatted {
        Some(f) => {
            if !f.as_str().is_empty() {
                f
            } else {
                "No relevant code context found for your query.".to_owned()
            }
        },
        None => "No relevant code context found for your query.".to_owned(),
    }
}

/// Error message when the search is asked with no blob names.
pub open spec fn no_blobs_message() -> Seq<char> {
    "No blobs found after indexing"@
}

/// Error message when there are no blob names to search.
pub fn no_blobs_error() -> (res: String)
    ensures
        res@ == no_blobs_message(),
{
    "No blobs found after indexing".to_owned()
}

/// Error message for a search answered with a failure status (`status` as
/// displayed, such as "500 Internal Server Error") and the response body.
pub fn search_failed_message(status: &str, body: &str) -> (res: String)
    ensures
        res@ == "Search failed: "@ + status@ + " - "@ + body@,
{
    let mut out = chars_of("Search failed: ");
    push_str(&mut out, status);
    push_str(&mut out, " - ");
    push_str(&mut out, body);
    string_from_chars(&out)
}

/// Error message for a search request that got no answer.
pub fn request_failed_message(error: &str) -> (res: String)
    ensures
        res@ == "Search request failed: "@ + error@,
{
    let mut out = chars_of("Search request failed: ");
    push_str(&mut out, error);
    string_from_chars(&out)
}

/// Whether the search request is sent: not without blob names, which is an
/// error (`None`: send it).
pub fn precheck_search(blob_names: &Vec<String>) -> (res: Option<String>)
    ensures
        blob_names@.len() == 0 <==> res is Some,
        res matches Some(e) ==> e@ == no_blobs_message(),
{
    if blob_names.len() == 0 {
        Some(no_blobs_error())
    } else {
        None
    }
}

/// What the search request got.
pub enum SearchReply {
    /// No answer arrived; the error's message.
    NoAnswer { error: String },
    /// The service answered with `status` (`status_text` as displayed, such
    /// as "500 Internal Server Error") and `body`; `parsed` is the body read
    /// as a search response: its formatted retrieval, or the message of why
    /// it could not be read.
    Answered { status: u16, status_text: String, body: String, parsed: Result<Option<String>, String> },
}

/// The outcome of a search request, given what it got.
pub open spec fn search_outcome_spec(reply: SearchReply) -> Result<Seq<char>, Seq<char>> {
    match reply {
        SearchReply::NoAnswer { error } => Err("Search request failed: "@ + error@),
        SearchReply::Answered { status, status_text, body, parsed } => if !(200 <= status <= 299) {
            Err("Search failed: "@ + status_text@ + " - "@ + body@)
        } else {
            match parsed {
                Err(e) => Err(e@),
                Ok(Some(f)) => if f@.len() > 0 {
                    Ok(f@)
                } else {
                    Ok(no_context_answer())
                },
                Ok(None) => Ok(no_context_answer()),
            }
        },
    }
}

/// Decides the outcome of a sent search request: no answer and a status
/// other than 2xx are errors with their messages; an unreadable body is an
/// error with the reason; otherwise the answer (see `search_answer`).
pub fn search_outcome(reply: SearchReply) -> (res: Result<String, String>)
    ensures
        result_view(res) == search_outcome_spec(reply),
{
    match reply {
        SearchReply::NoAnswer { error } => Err(request_failed_message(error.as_str())),
        SearchReply::Answered { status, status_text, body, parsed } => {
            if !(200 <= status && status <= 299) {
                return Err(search_failed_message(status_text.as_str(), body.as_str()));
            }
            match parsed {
                Err(e) => Err(e),
                Ok(f) => Ok(search_answer(f)),
            }
        },
    }
}

// ---------------------------------------------------------------------------
// The search as a sequence of steps
// ---------------------------------------------------------------------------

/// Where a search stands.
#[derive(Debug, PartialEq, Eq, Structural, Clone, Copy)]
pub enum SearchStage {
    /// Waiting for the first indexing run.
    Indexing,
    /// Waiting for the first search.
    Searching,
    /// The first search failed; waiting for the forced re-upload.
    Reindexing,
    /// Waiting for the second search.
    Retrying,
    /// Finished.
    Done,
}

/// Order of the stages: every step moves to a later one.
pub open spec fn stage_rank(s: SearchStage) -> nat {
    match s {
        SearchStage::Indexing => 0,
        SearchStage::Searching => 1,
        SearchStage::Reindexing => 2,
        SearchStage::Retrying => 3,
        SearchStage::Done => 4,
    }
}

/// What the caller is to do next.
pub enum SearchAction {
    /// Index the project (ignoring the local index when `force_reupload`)
    /// and report the result.
    Index { force_reupload: bool },
    /// Send the search request with the blob names of the saved index and
    /// report the answer or the error message.
    Search,
    /// The search is over with this answer or error message.
    Finish(Result<String, String>),
}

/// What the caller reports.
pub enum SearchEvent {
    /// An indexing run finished.
    Indexed(IndexResult),
    /// The search request gave an answer or an error message.
    Searched(Result<String, String>),
}

/// Plain values of an action.
pub enum SearchActionView {
    Index { force_reupload: bool },
    Search,
    Finish(Result<Seq<char>, Seq<char>>),
}

/// Plain values of an event: for an indexing run, whether its status is
/// "error" and its message.
pub enum SearchEventView {
    Indexed { failed: bool, message: Seq<char> },
    Searched(Result<Seq<char>, Seq<char>>),
}

/// Plain values of a result of strings.
pub open spec fn result_view(r: Result<String, String>) -> Result<Seq<char>, Seq<char>> {
    match r {
        Ok(a) => Ok(a@),
        Err(e) => Err(e@),
    }
}

impl View for SearchAction {
    type V = SearchActionView;

    open spec fn view(&self) -> SearchActionView {
        match self {
            SearchAction::Index { force_reupload } => SearchActionView::Index { force_reupload: *force_reupload },
            SearchAction::Search => SearchActionView::Search,
            SearchAction::Finish(r) => SearchActionView::Finish(result_view(*r)),
        }
    }
}

impl View for SearchEvent {
    type V = SearchEventView;

    open spec fn view(&self) -> SearchEventView {
        match self {
            SearchEvent::Indexed(r) => SearchEventView::Indexed { failed: r.status@ == "error"@, message: r.message@ },
            SearchEvent::Searched(r) => SearchEventView::Searched(result_view(*r)),
        }
    }
}

/// A search in progress.
pub struct SearchFlow {
    stage: SearchStage,
    first_error: String,
}

/// Plain values of a search in progress: its stage and the error of the
/// first search (empty before it failed).
pub struct SearchFlowView {
    pub stage: SearchStage,
    pub first_error: Seq<char>,
}

impl View for SearchFlow {
    type V = SearchFlowView;

    closed spec fn view(&self) -> SearchFlowView {
        SearchFlowView { stage: self.stage, first_error: self.first_error@ }
    }
}

/// The event that a stage waits for.
pub open spec fn expects(stage: SearchStage, e: SearchEventView) -> bool {
    match stage {
        SearchStage::Indexing | SearchStage::Reindexing => e is Indexed,
        SearchStage::Searching | SearchStage::Retrying => e is Searched,
        SearchStage::Done => false,
    }
}

/// Error when the first indexing run fails.
pub open spec fn index_failed_message(message: Seq<char>) -> Seq<char> {
    "Failed to index project: "@ + message
}

/// Error when the search failed and the forced re-upload failed too.
pub open spec fn reindex_failed_message(first: Seq<char>, message: Seq<char>) -> Seq<char> {
    "Search failed, and forced re-upload also failed: "@ + first + "; reindex error: "@ + message
}

/// Error when the search failed again after the forced re-upload.
pub open spec fn retry_failed_message(first: Seq<char>, second: Seq<char>) -> Seq<char> {
    "Search failed after retry. initial error: "@ + first + "; retry error: "@ + second
}

/// One step of a search: the stage and first error after the event, and
/// the action asked for.
pub open spec fn search_step(s: SearchFlowView, e: SearchEventView) -> (SearchFlowView, SearchActionView) {
    let done = |r: Result<Seq<char>, Seq<char>>|
        (SearchFlowView { stage: SearchStage::Done, first_error: s.first_error }, SearchActionView::Finish(r));
    match e {
        SearchEventView::Indexed { failed, message } => if s.stage == SearchStage::Indexing {
            if failed {
                done(Err(index_failed_message(message)))
            } else {
                (SearchFlowView { stage: SearchStage::Searching, first_error: s.first_error }, SearchActionView::Search)
            }
        } else {
            if failed {
                done(Err(reindex_failed_message(s.first_error, message)))
            } else {
                (SearchFlowView { stage: SearchStage::Retrying, first_error: s.first_error }, SearchActionView::Search)
            }
        },
        SearchEventView::Searched(r) => match r {
            Ok(a) => done(Ok(a)),
            Err(err) => if s.stage == SearchStage::Searching {
                (
                    SearchFlowView { stage: SearchStage::Reindexing, first_error: err },
                    SearchActionView::Index { force_reupload: true },
                )
            } else {
                done(Err(retry_failed_message(s.first_error, err)))
            },
        },
    }
}

impl SearchFlow {
    /// Starts a search: the first action is an ordinary indexing run.
    pub fn start() -> (res: (SearchFlow, SearchAction))
        ensures
            res.0@.stage == SearchStage::Indexing,
            res.0@.first_error.len() == 0,
            res.1@ == (SearchActionView::Index { force_reupload: false }),
    {
        (SearchFlow { stage: SearchStage::Indexing, first_error: String::new() }, SearchAction::Index { force_reupload: false })
    }

    /// The current stage.
    pub fn stage(&self) -> (res: SearchStage)
        ensures
            res == self@.stage,
    {
        self.stage
    }

    /// Takes the outcome of the last action and gives the next one.
    pub fn step(&mut self, event: SearchEvent) -> (res: SearchAction)
        requires
            expects(old(self)@.stage, event@),
        ensures
            (final(self)@, res@) == search_step(old(self)@, event@),
    {
        match event {
            SearchEvent::Indexed(r) => {
                let failed = crate::text::str_equal(r.status.as_str(), "error");
                if self.stage == SearchStage::Indexing {
                    if failed {
                        self.stage = SearchStage::Done;
                        let mut out = chars_of("Failed to index project: ");
                        push_str(&mut out, r.message.as_str());
                        SearchAction::Finish(Err(string_from_chars(&out)))
                    } else {
                        self.stage = SearchStage::Searching;
                        SearchAction::Search
                    }
                } else {
                    if failed {
                        self.stage = SearchStage::Done;
                        let mut out = chars_of("Search failed, and forced re-upload also failed: ");
                        push_str(&mut out, self.first_error.as_str());
                        push_str(&mut out, "; reindex error: ");
                        push_str(&mut out, r.message.as_str());
                        SearchAction::Finish(Err(string_from_chars(&out)))
                    } else {
                        self.stage = SearchStage::Retrying;
                        SearchAction::Search
                    }
                }
            },
            SearchEvent::Searched(r) => match r {
                Ok(a) => {
                    self.stage = SearchStage::Done;
                    SearchAction::Finish(Ok(a))
                },
                Err(err) => {
                    if self.stage == SearchStage::Searching {
                        self.stage = SearchStage::Reindexing;
                        self.first_error = err;
                        SearchAction::Index { force_reupload: true }
                    } else {
                        self.stage = SearchStage::Done;
                        let mut out = chars_of("Search failed after retry. initial error: ");
                        push_str(&mut out, self.first_error.as_str());
                        push_str(&mut out, "; retry error: ");
                        push_str(&mut out, err.as_str());
                        SearchAction::Finish(Err(string_from_chars(&out)))
                    }
                },
            },
        }
    }
}

/// Every step of a search moves it to a later stage, and the search is
/// finished exactly when it reaches the last one; so a search asks for at
/// most four actions after the first and ends with an answer or an error.
pub proof fn law_search_progresses(s: SearchFlowView, e: SearchEventView)
    requires
        expects(s.stage, e),
    ensures
        stage_rank(search_step(s, e).0.stage) > stage_rank(s.stage),
        (search_step(s, e).1 is Finish) <==> search_step(s, e).0.stage == SearchStage::Done,
{
}

/// A full re-upload is asked for only after the first search failed, and a
/// search that succeeds is answered with exactly what the service returned.
pub proof fn law_search_retry_once(s: SearchFlowView, e: SearchEventView)
    requires
        expects(s.stage, e),
    ensures
        search_step(s, e).1 matches SearchActionView::Index { force_reupload } ==> force_reupload
            && s.stage == SearchStage::Searching && e matches SearchEventView::Searched(Err(_)),
        e matches SearchEventView::Searched(Ok(a)) ==> search_step(s, e).1 == SearchActionView::Finish(Ok(a)),
{
}

} // verus!
