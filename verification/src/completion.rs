//! The outcome of one completion attempt against the LLM endpoint.

use vstd::prelude::*;

verus! {

/// Why a completion attempt produced no usable text.
#[derive(Clone, Copy, Debug, PartialEq, Eq, Structural)]
pub enum FailureReason {
    /// The endpoint could not be reached (connection or protocol failure).
    TransportError,
    /// The endpoint answered with a non-success HTTP status.
    UpstreamError(u16),
    /// The response body was not JSON of the expected shape, or the
    /// completion field was missing.
    MalformedResponse,
}

/// Outcome of one completion attempt. An empty completion text is valid
/// content and is carried as `Success`, never coerced into a failure.
#[derive(Clone, Debug, PartialEq, Eq)]
pub enum CompletionResult {
    Success(String),
    Failure(FailureReason),
}

/// Mathematical model of a [`CompletionResult`]: the completion text as a
/// sequence of characters, or the reason it is absent.
pub enum ResultView {
    Success(Seq<char>),
    Failure(FailureReason),
}

impl View for CompletionResult {
    type V = ResultView;

    open spec fn view(&self) -> ResultView {
        match self {
            CompletionResult::Success(t) => ResultView::Success(t@),
            CompletionResult::Failure(r) => ResultView::Failure(*r),
        }
    }
}

} // verus!
