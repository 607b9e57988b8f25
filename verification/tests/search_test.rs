//! Tests for the search steps.

use ace_tool::index::search::{
    no_blobs_error, request_failed_message, search_answer, search_failed_message, SearchAction,
    SearchEvent, SearchFlow, SearchStage,
};
use ace_tool::index::IndexResult;

fn indexed(status: &str, message: &str) -> SearchEvent {
    SearchEvent::Indexed(IndexResult { status: status.to_string(), message: message.to_string(), stats: None })
}

fn finish(a: SearchAction) -> Result<String, String> {
    match a {
        SearchAction::Finish(r) => r,
        _ => panic!("expected the end of the search"),
    }
}

#[test]
fn search_succeeds_first_time() {
    let (mut flow, first) = SearchFlow::start();
    assert!(matches!(first, SearchAction::Index { force_reupload: false }));
    assert!(matches!(flow.step(indexed("partial", "some failed")), SearchAction::Search));
    assert_eq!(flow.stage(), SearchStage::Searching);
    let r = finish(flow.step(SearchEvent::Searched(Ok("answer".to_string()))));
    assert_eq!(r, Ok("answer".to_string()));
    assert_eq!(flow.stage(), SearchStage::Done);
}

#[test]
fn search_indexing_error() {
    let (mut flow, _) = SearchFlow::start();
    let r = finish(flow.step(indexed("error", "No text files found in project")));
    assert_eq!(r, Err("Failed to index project: No text files found in project".to_string()));
}

#[test]
fn search_retries_after_forced_reupload() {
    let (mut flow, _) = SearchFlow::start();
    flow.step(indexed("success", "ok"));
    let a = flow.step(SearchEvent::Searched(Err("boom".to_string())));
    assert!(matches!(a, SearchAction::Index { force_reupload: true }));
    assert_eq!(flow.stage(), SearchStage::Reindexing);
    assert!(matches!(flow.step(indexed("success", "ok")), SearchAction::Search));
    assert_eq!(flow.stage(), SearchStage::Retrying);
    let r = finish(flow.step(SearchEvent::Searched(Ok("second".to_string()))));
    assert_eq!(r, Ok("second".to_string()));
}

#[test]
fn search_fails_twice() {
    let (mut flow, _) = SearchFlow::start();
    flow.step(indexed("success", "ok"));
    flow.step(SearchEvent::Searched(Err("first".to_string())));
    flow.step(indexed("success", "ok"));
    let r = finish(flow.step(SearchEvent::Searched(Err("second".to_string()))));
    assert_eq!(r, Err("Search failed after retry. initial error: first; retry error: second".to_string()));
}

#[test]
fn search_reindex_fails() {
    let (mut flow, _) = SearchFlow::start();
    flow.step(indexed("success", "ok"));
    flow.step(SearchEvent::Searched(Err("first".to_string())));
    let r = finish(flow.step(indexed("error", "No files could be processed")));
    assert_eq!(
        r,
        Err("Search failed, and forced re-upload also failed: first; reindex error: No files could be processed".to_string())
    );
}

#[test]
fn search_messages() {
    assert_eq!(search_answer(Some("ctx".to_string())), "ctx");
    assert_eq!(search_answer(Some(String::new())), "No relevant code context found for your query.");
    assert_eq!(search_answer(None), "No relevant code context found for your query.");
    assert_eq!(no_blobs_error(), "No blobs found after indexing");
    assert_eq!(
        search_failed_message("500 Internal Server Error", "oops"),
        "Search failed: 500 Internal Server Error - oops"
    );
    assert_eq!(request_failed_message("timed out"), "Search request failed: timed out");
}

use ace_tool::index::search::{precheck_search, search_outcome, SearchReply};

#[test]
fn search_request_outcomes() {
    assert_eq!(precheck_search(&Vec::new()), Some("No blobs found after indexing".to_string()));
    assert_eq!(precheck_search(&vec!["h".to_string()]), None);
    let answered = |status: u16, parsed: Result<Option<String>, String>| SearchReply::Answered {
        status,
        status_text: format!("{} X", status),
        body: "b".to_string(),
        parsed,
    };
    assert_eq!(search_outcome(SearchReply::NoAnswer { error: "dns".to_string() }), Err("Search request failed: dns".to_string()));
    assert_eq!(search_outcome(answered(500, Ok(Some("r".to_string())))), Err("Search failed: 500 X - b".to_string()));
    assert_eq!(search_outcome(answered(199, Ok(None))), Err("Search failed: 199 X - b".to_string()));
    assert_eq!(search_outcome(answered(200, Ok(Some("r".to_string())))), Ok("r".to_string()));
    assert_eq!(
        search_outcome(answered(204, Ok(Some(String::new())))),
        Ok("No relevant code context found for your query.".to_string())
    );
    assert_eq!(search_outcome(answered(200, Ok(None))), Ok("No relevant code context found for your query.".to_string()));
    assert_eq!(search_outcome(answered(200, Err("bad json".to_string()))), Err("bad json".to_string()));
}
