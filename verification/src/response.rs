//! Classification of the completion endpoint's answer into a
//! [`CompletionResult`].

use vstd::prelude::*;

use crate::body::RequestView;
use crate::body::body_spec;
use crate::completion::CompletionResult;
use crate::completion::FailureReason;
use crate::completion::ResultView;

verus! {

/// The completion text at `choices[0].message.content` of a JSON document,
/// if the document parses and carries a string there.
pub uninterp spec fn completion_content(body: Seq<char>) -> Option<Seq<char>>;

/// Relies on `serde_json::from_str` and `serde_json::Value::{get, as_str}`:
/// parsing is deterministic, so the string found at
/// `choices[0].message.content` — or its absence — is a function of the body
/// text alone.
#[verifier::external_body]
fn extract_content(body: &str) -> (r: Option<String>)
    ensures
        (match r {
            Some(t) => completion_content(body@) == Some(t@),
            None => completion_content(body@) is None,
        }),
{
    let parsed: serde_json::Value = match serde_json::from_str(body) {
        Ok(v) => v,
        Err(_) => return None,
    };
    let text = parsed.get("choices")?.get(0)?.get("message")?.get("content")?.as_str()?;
    Some(text.to_string())
}

/// Whether an HTTP status counts as success.
pub open spec fn is_success_status(status: u16) -> bool {
    200 <= status < 300
}

/// How one completed HTTP exchange with the endpoint is read: a non-success
/// status is an upstream failure; otherwise the completion text is taken
/// from `choices[0].message.content`, an empty string being valid content;
/// a body without a string there is malformed.
pub open spec fn classify_spec(status: u16, body: Seq<char>) -> ResultView {
    if !is_success_status(status) {
        ResultView::Failure(FailureReason::UpstreamError(status))
    } else {
        match completion_content(body) {
            Some(t) => ResultView::Success(t),
            None => ResultView::Failure(FailureReason::MalformedResponse),
        }
    }
}

/// Reads one completed HTTP exchange into a completion outcome. Never
/// panics and never lets the exchange's oddities escape: every status and
/// every body yields a value of [`CompletionResult`].
pub fn classify_response(status: u16, body: &str) -> (r: CompletionResult)
    ensures
        r@ == classify_spec(status, body@),
{
    if status < 200 || status >= 300 {
        CompletionResult::Failure(FailureReason::UpstreamError(status))
    } else {
        match extract_content(body) {
            Some(t) => CompletionResult::Success(t),
            None => CompletionResult::Failure(FailureReason::MalformedResponse),
        }
    }
}

/// The outcome when the endpoint could not be reached at all; the caller
/// that performs the HTTP exchange maps a connection or protocol error to
/// this value.
pub fn transport_failure() -> (r: CompletionResult)
    ensures
        r@ == ResultView::Failure(FailureReason::TransportError),
{
    CompletionResult::Failure(FailureReason::TransportError)
}

/// The generator's outcome is a function of its inputs alone: two runs over
/// the same request and the same endpoint exchange produce the same wire
/// body and the same classified result. No hidden shared state enters
/// either step, so identical inputs against a deterministic endpoint give
/// identical `CompletionResult` values.
pub proof fn lemma_generator_deterministic(
    r1: RequestView,
    r2: RequestView,
    status1: u16,
    body1: Seq<char>,
    status2: u16,
    body2: Seq<char>,
)
    requires
        r1 == r2,
        status1 == status2,
        body1 == body2,
    ensures
        body_spec(r1) == body_spec(r2),
        classify_spec(status1, body1) == classify_spec(status2, body2),
{
}

} // verus!
