use transcriber::credential::resolve_credential;
use transcriber::error::TranscriptionError;
use transcriber::json::{extract_transcript, Json};
use transcriber::request::build_request;
use transcriber::response::{handle_outcome, HttpOutcome};

fn message_of(r: Result<String, TranscriptionError>) -> String {
    match r {
        Ok(_) => panic!("expected a failure"),
        Err(e) => e.message(),
    }
}

#[test]
fn missing_credential_is_refused() {
    let r = resolve_credential(None);
    let msg = message_of(r);
    assert_eq!(
        msg.as_str(),
        "Missing DEEPGRAM_API_KEY environment variable. Please create a .env file with: DEEPGRAM_API_KEY=your_key_here"
    );
}

#[test]
fn empty_credential_is_refused() {
    let r = resolve_credential(Some(""));
    let msg = message_of(r);
    assert_eq!(
        msg.as_str(),
        "DEEPGRAM_API_KEY is empty. Please set a valid API key in your .env file."
    );
}

#[test]
fn whitespace_credential_is_refused() {
    let r = resolve_credential(Some(" \t\r\n \u{00A0}\u{3000} "));
    let msg = message_of(r);
    assert_eq!(
        msg.as_str(),
        "DEEPGRAM_API_KEY is empty. Please set a valid API key in your .env file."
    );
}

#[test]
fn credential_is_trimmed() {
    let r = resolve_credential(Some("  tok-123  \n"));
    assert_eq!(r.unwrap().as_str(), "tok-123");
}

#[test]
fn credential_without_padding_is_kept() {
    let r = resolve_credential(Some("tok-123"));
    assert_eq!(r.unwrap().as_str(), "tok-123");
}

#[test]
fn request_shape_is_fixed() {
    let plan = build_request("tok-123");
    assert_eq!(
        plan.url.as_str(),
        "https://api.deepgram.com/v1/listen?model=nova-2&language=en&punctuate=true"
    );
    assert_eq!(plan.authorization.as_str(), "Token tok-123");
    assert_eq!(plan.content_type.as_str(), "audio/webm;codecs=opus");
}

#[test]
fn non_success_status_is_a_remote_error() {
    let r = handle_outcome(HttpOutcome::Response(404, Some("not json at all".to_string())));
    let msg = message_of(r);
    assert_eq!(msg.as_str(), "Deepgram API error (404): not json at all");
}

#[test]
fn non_success_status_with_unreadable_body() {
    let r = handle_outcome(HttpOutcome::Response(500, None));
    let msg = message_of(r);
    assert_eq!(msg.as_str(), "Deepgram API error (500): Unknown error");
}

#[test]
fn transport_failure_is_a_network_error() {
    let r = handle_outcome(HttpOutcome::TransportFailure("connection refused".to_string()));
    let msg = message_of(r);
    assert_eq!(msg.as_str(), "Request failed: connection refused");
}

#[test]
fn invalid_json_is_a_parse_error() {
    let r = handle_outcome(HttpOutcome::Response(200, Some("{not json".to_string())));
    let msg = message_of(r);
    assert_eq!(msg.as_str(), "Failed to parse JSON: invalid JSON");
}

#[test]
fn unreadable_success_body_is_a_parse_error() {
    let r = handle_outcome(HttpOutcome::Response(200, None));
    let msg = message_of(r);
    assert_eq!(msg.as_str(), "Failed to parse JSON: invalid JSON");
}

fn expect_no_transcript(body: &str) {
    let r = handle_outcome(HttpOutcome::Response(200, Some(body.to_string())));
    let msg = message_of(r);
    assert_eq!(msg.as_str(), "No transcript found in response");
}

#[test]
fn missing_results_yields_no_transcript() {
    expect_no_transcript("{}");
}

#[test]
fn missing_channel_yields_no_transcript() {
    expect_no_transcript("{\"results\":{\"channels\":[]}}");
    expect_no_transcript("{\"results\":{}}");
}

#[test]
fn missing_alternative_yields_no_transcript() {
    expect_no_transcript("{\"results\":{\"channels\":[{\"alternatives\":[]}]}}");
    expect_no_transcript("{\"results\":{\"channels\":[{}]}}");
}

#[test]
fn missing_transcript_field_yields_no_transcript() {
    expect_no_transcript("{\"results\":{\"channels\":[{\"alternatives\":[{}]}]}}");
}

#[test]
fn non_string_transcript_yields_no_transcript() {
    expect_no_transcript("{\"results\":{\"channels\":[{\"alternatives\":[{\"transcript\":7}]}]}}");
}

#[test]
fn empty_transcript_yields_no_transcript() {
    expect_no_transcript(
        "{\"results\":{\"channels\":[{\"alternatives\":[{\"transcript\":\"\"}]}]}}",
    );
}

#[test]
fn successful_response_round_trip() {
    let body = "{\"results\":{\"channels\":[{\"alternatives\":[{\"transcript\":\"hello world\"}]}]}}";
    let r = handle_outcome(HttpOutcome::Response(200, Some(body.to_string())));
    assert_eq!(r.unwrap().as_str(), "hello world");
}

#[test]
fn repeated_calls_agree() {
    let body = "{\"results\":{\"channels\":[{\"alternatives\":[{\"transcript\":\"twice over\"}]}]}}";
    let first = handle_outcome(HttpOutcome::Response(200, Some(body.to_string())));
    let second = handle_outcome(HttpOutcome::Response(200, Some(body.to_string())));
    assert_eq!(first.unwrap().as_str(), "twice over");
    assert_eq!(second.unwrap().as_str(), "twice over");
}

#[test]
fn distinct_calls_keep_their_own_results() {
    let body_a = "{\"results\":{\"channels\":[{\"alternatives\":[{\"transcript\":\"first clip\"}]}]}}";
    let body_b = "{\"results\":{\"channels\":[{\"alternatives\":[{\"transcript\":\"second clip\"}]}]}}";
    let ra = handle_outcome(HttpOutcome::Response(200, Some(body_a.to_string())));
    let rb = handle_outcome(HttpOutcome::Response(200, Some(body_b.to_string())));
    assert_eq!(ra.unwrap().as_str(), "first clip");
    assert_eq!(rb.unwrap().as_str(), "second clip");
}

#[test]
fn extraction_walks_the_fixed_path() {
    let alternative = Json::Obj(vec![(
        "transcript".to_string(),
        Json::Str("spoken words".to_string()),
    )]);
    let channel = Json::Obj(vec![("alternatives".to_string(), Json::Arr(vec![alternative]))]);
    let doc = Json::Obj(vec![(
        "results".to_string(),
        Json::Obj(vec![("channels".to_string(), Json::Arr(vec![channel]))]),
    )]);
    assert_eq!(extract_transcript(&doc).unwrap().as_str(), "spoken words");
}

#[test]
fn extraction_takes_the_first_matching_key() {
    let doc = Json::Obj(vec![
        ("results".to_string(), Json::Null),
        (
            "results".to_string(),
            Json::Obj(vec![("channels".to_string(), Json::Arr(vec![]))]),
        ),
    ]);
    assert!(extract_transcript(&doc).is_none());
}

#[test]
fn extraction_refuses_non_object_levels() {
    assert!(extract_transcript(&Json::Str("results".to_string())).is_none());
    assert!(extract_transcript(&Json::Arr(vec![Json::Null])).is_none());
    assert!(extract_transcript(&Json::Null).is_none());
}
