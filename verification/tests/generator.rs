//! The response generator's classification of endpoint exchanges, exercised
//! with the real JSON parser linked in.

use mention_bridge::body::CompletionRequest;
use mention_bridge::completion::CompletionResult;
use mention_bridge::completion::FailureReason;
use mention_bridge::config::BridgeConfig;
use mention_bridge::config::LLMOptions;
use mention_bridge::dispatch::reply_for;
use mention_bridge::response::classify_response;
use mention_bridge::response::transport_failure;

const FALLBACK: &str = "Sorry, I could not generate a response.";

fn test_config() -> BridgeConfig {
    BridgeConfig::new(
        String::from("https://llm.example/v1/chat/completions"),
        String::from("op-1"),
        String::from("tok-123"),
        String::from("google_ai:gemini-2.0-flash-exp"),
        None,
    )
}

#[test]
fn success_content_relayed_verbatim() {
    let body = "{\"choices\":[{\"message\":{\"content\":\"Hello\"}}]}";
    let outcome = classify_response(200, body);
    assert_eq!(outcome, CompletionResult::Success(String::from("Hello")));
    assert_eq!(reply_for(&outcome), "Hello");
}

#[test]
fn empty_content_is_success_not_fallback() {
    let body = "{\"choices\":[{\"message\":{\"content\":\"\"}}]}";
    let outcome = classify_response(200, body);
    assert_eq!(outcome, CompletionResult::Success(String::new()));
    assert_eq!(reply_for(&outcome), "");
}

#[test]
fn upstream_error_yields_fallback() {
    let outcome = classify_response(500, "{\"choices\":[{\"message\":{\"content\":\"Hello\"}}]}");
    assert_eq!(
        outcome,
        CompletionResult::Failure(FailureReason::UpstreamError(500))
    );
    assert_eq!(reply_for(&outcome), FALLBACK);
}

#[test]
fn invalid_json_yields_fallback() {
    let outcome = classify_response(200, "this is not json");
    assert_eq!(
        outcome,
        CompletionResult::Failure(FailureReason::MalformedResponse)
    );
    assert_eq!(reply_for(&outcome), FALLBACK);
}

#[test]
fn missing_content_field_is_malformed() {
    let outcome = classify_response(200, "{\"choices\":[]}");
    assert_eq!(
        outcome,
        CompletionResult::Failure(FailureReason::MalformedResponse)
    );
}

#[test]
fn non_string_content_is_malformed() {
    let outcome = classify_response(200, "{\"choices\":[{\"message\":{\"content\":5}}]}");
    assert_eq!(
        outcome,
        CompletionResult::Failure(FailureReason::MalformedResponse)
    );
}

#[test]
fn transport_error_yields_fallback() {
    let outcome = transport_failure();
    assert_eq!(
        outcome,
        CompletionResult::Failure(FailureReason::TransportError)
    );
    assert_eq!(reply_for(&outcome), FALLBACK);
}

#[test]
fn status_boundaries() {
    let body = "{\"choices\":[{\"message\":{\"content\":\"ok\"}}]}";
    assert_eq!(
        classify_response(199, body),
        CompletionResult::Failure(FailureReason::UpstreamError(199))
    );
    assert_eq!(
        classify_response(299, body),
        CompletionResult::Success(String::from("ok"))
    );
    assert_eq!(
        classify_response(300, body),
        CompletionResult::Failure(FailureReason::UpstreamError(300))
    );
}

#[test]
fn generator_is_deterministic() {
    let config = test_config();
    let body = "{\"choices\":[{\"message\":{\"content\":\"same\"}}]}";
    let first_request = CompletionRequest::build(&config, "question", None);
    let second_request = CompletionRequest::build(&config, "question", None);
    assert_eq!(first_request.to_json_body(), second_request.to_json_body());
    let first = classify_response(200, body);
    let second = classify_response(200, body);
    assert_eq!(first, second);
}

#[test]
fn override_model_is_used() {
    let config = test_config();
    let options = LLMOptions { model: "other:model" };
    let request = CompletionRequest::build(&config, "hi", Some(options));
    assert_eq!(request.model, "other:model");
}

#[test]
fn default_model_without_override() {
    let config = test_config();
    let request = CompletionRequest::build(&config, "hi", None);
    assert_eq!(request.model, "google_ai:gemini-2.0-flash-exp");
}

#[test]
fn llm_options_default_model() {
    let options = LLMOptions::default();
    assert_eq!(options.model, "google_ai:gemini-2.0-flash-exp");
}

#[test]
fn bearer_value_prefixes_credential() {
    let config = test_config();
    assert_eq!(config.bearer_value(), "Bearer tok-123");
}

#[test]
fn request_headers_carry_negotiation_operator_and_credential() {
    let config = test_config();
    let headers = config.request_headers();
    assert_eq!(headers.len(), 4);
    assert_eq!(headers[0], (String::from("Accept"), String::from("application/json")));
    assert_eq!(
        headers[1],
        (String::from("Content-Type"), String::from("application/json"))
    );
    assert_eq!(
        headers[2],
        (String::from("x-operator-id"), String::from("op-1"))
    );
    assert_eq!(
        headers[3],
        (String::from("Authorization"), String::from("Bearer tok-123"))
    );
}
