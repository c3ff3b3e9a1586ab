//! The exact JSON wire body the bridge builds for the completion endpoint.

use mention_bridge::body::CompletionRequest;
use mention_bridge::config::BridgeConfig;

fn config_with_prompt(system_prompt: Option<String>) -> BridgeConfig {
    BridgeConfig::new(
        String::from("https://llm.example/v1/chat/completions"),
        String::from("op-1"),
        String::from("tok-123"),
        String::from("google_ai:gemini-2.0-flash-exp"),
        system_prompt,
    )
}

#[test]
fn body_without_system_prompt() {
    let config = config_with_prompt(None);
    let request = CompletionRequest::build(&config, "hi there", None);
    assert_eq!(
        request.to_json_body(),
        "{\"model\":\"google_ai:gemini-2.0-flash-exp\",\"messages\":[{\"role\":\"user\",\"content\":\"hi there\"}]}"
    );
}

#[test]
fn body_with_system_prompt() {
    let config = config_with_prompt(Some(String::from("be terse")));
    let request = CompletionRequest::build(&config, "hi", None);
    assert_eq!(
        request.to_json_body(),
        "{\"model\":\"google_ai:gemini-2.0-flash-exp\",\"messages\":[{\"role\":\"developer\",\"content\":\"be terse\"},{\"role\":\"user\",\"content\":\"hi\"}]}"
    );
}

#[test]
fn body_escapes_quotes_and_backslashes() {
    let config = config_with_prompt(None);
    let request = CompletionRequest::build(&config, "say \"hi\" \\ done", None);
    assert_eq!(
        request.to_json_body(),
        "{\"model\":\"google_ai:gemini-2.0-flash-exp\",\"messages\":[{\"role\":\"user\",\"content\":\"say \\\"hi\\\" \\\\ done\"}]}"
    );
}

#[test]
fn body_escapes_control_characters() {
    let config = config_with_prompt(None);
    let request = CompletionRequest::build(&config, "a\nb\rc\td\u{1}e\u{1f}f", None);
    assert_eq!(
        request.to_json_body(),
        "{\"model\":\"google_ai:gemini-2.0-flash-exp\",\"messages\":[{\"role\":\"user\",\"content\":\"a\\nb\\rc\\td\\u0001e\\u001ff\"}]}"
    );
}

#[test]
fn body_is_valid_json_for_parser() {
    let config = config_with_prompt(Some(String::from("quote: \" backslash: \\")));
    let request = CompletionRequest::build(&config, "line\nbreak", None);
    let body = request.to_json_body();
    let parsed: serde_json::Value = serde_json::from_str(&body).expect("the built body parses");
    assert_eq!(
        parsed["messages"][1]["content"].as_str(),
        Some("line\nbreak")
    );
    assert_eq!(
        parsed["messages"][0]["content"].as_str(),
        Some("quote: \" backslash: \\")
    );
    assert_eq!(parsed["model"].as_str(), Some("google_ai:gemini-2.0-flash-exp"));
}

#[test]
fn empty_user_content_still_forms_a_turn() {
    let config = config_with_prompt(None);
    let request = CompletionRequest::build(&config, "", None);
    assert_eq!(
        request.to_json_body(),
        "{\"model\":\"google_ai:gemini-2.0-flash-exp\",\"messages\":[{\"role\":\"user\",\"content\":\"\"}]}"
    );
}
