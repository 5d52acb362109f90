use united_chat::client::poll_once;
use united_chat::client::ChatResponse;
use united_chat::client::ContinuationEntry;
use united_chat::polling::loop_step;
use united_chat::polling::LoopAction;
use united_chat::polling::LoopEvent;
use united_chat::polling::LoopState;
use united_chat::session::resolve_session;
use united_chat::session::SessionResolutionError;
use united_chat::session::StreamType;

fn live_markup() -> String {
    let mut m = String::new();
    m.push_str("<html><head>");
    m.push_str("<link rel=\"canonical\" href=\"https://www.youtube.com/watch?v=abc123\">");
    m.push_str("</head><body><script>var cfg = {");
    m.push_str("\"INNERTUBE_API_KEY\": \"ABC123\", ");
    m.push_str("\"clientVersion\": \"2.20240101.00.00\", ");
    m.push_str("\"continuation\": \"XYZ\"");
    m.push_str("};</script></body></html>");
    m
}

#[test]
fn resolve_live_markup() {
    let info = resolve_session(&live_markup()).expect("markup with all markers resolves");
    assert_eq!(info.is_replay, None);
    assert_eq!(info.api_key, "ABC123");
    assert_eq!(info.stream_type, StreamType::Live);
    assert_eq!(info.continuation.as_deref(), Some("XYZ"));
    assert_eq!(info.scheduled_start_time, None);
    assert_eq!(info.client_version, "2.20240101.00.00");
    assert_eq!(info.video_id, "abc123");
}

#[test]
fn resolve_scheduled_markup() {
    let m = live_markup().replace(
        "\"continuation\": \"XYZ\"",
        "\"scheduledStartTime\": \"1700000000\"",
    );
    let info = resolve_session(&m).expect("scheduled markup resolves");
    assert_eq!(info.stream_type, StreamType::Scheduled);
    assert_eq!(info.continuation, None);
    assert_eq!(info.scheduled_start_time.as_deref(), Some("1700000000"));
}

#[test]
fn resolve_replay_rejected() {
    let m = format!("{{\"isReplay\": true}} {}", live_markup());
    assert_eq!(
        resolve_session(&m),
        Err(SessionResolutionError::ReplayNotSupported)
    );
}

#[test]
fn resolve_replay_false_not_rejected() {
    let m = format!("{{\"isReplay\": false}} {}", live_markup());
    let info = resolve_session(&m).expect("a false replay flag does not reject");
    assert_eq!(info.is_replay, None);
    assert_eq!(info.stream_type, StreamType::Live);
}

#[test]
fn resolve_missing_api_key() {
    let m = live_markup().replace("INNERTUBE_API_KEY", "SOME_OTHER_KEY");
    assert_eq!(
        resolve_session(&m),
        Err(SessionResolutionError::MissingApiKey)
    );
}

#[test]
fn resolve_missing_continuation() {
    let m = live_markup().replace("\"continuation\": \"XYZ\"", "");
    assert_eq!(
        resolve_session(&m),
        Err(SessionResolutionError::MissingContinuation)
    );
}

#[test]
fn resolve_missing_client_version() {
    let m = live_markup().replace("\"clientVersion\": \"2.20240101.00.00\", ", "");
    assert_eq!(
        resolve_session(&m),
        Err(SessionResolutionError::MissingClientVersion)
    );
}

#[test]
fn resolve_client_version_needs_version_chars() {
    // A quoted value with characters outside digits-and-dots does not
    // satisfy the client-version marker.
    let m = live_markup().replace("2.20240101.00.00", "beta");
    assert_eq!(
        resolve_session(&m),
        Err(SessionResolutionError::MissingClientVersion)
    );
}

#[test]
fn resolve_missing_video_id() {
    let m = live_markup().replace("rel=\"canonical\"", "rel=\"alternate\"");
    assert_eq!(
        resolve_session(&m),
        Err(SessionResolutionError::MissingVideoId)
    );
}

#[test]
fn resolve_is_idempotent() {
    let m = live_markup();
    let a = resolve_session(&m);
    let b = resolve_session(&m);
    assert_eq!(a, b);
}

#[test]
fn resolve_takes_leftmost_marker() {
    let m = live_markup().replace(
        "\"continuation\": \"XYZ\"",
        "\"continuation\": \"FIRST\", \"continuation\": \"SECOND\"",
    );
    let info = resolve_session(&m).expect("markup resolves");
    assert_eq!(info.continuation.as_deref(), Some("FIRST"));
}

#[test]
fn resolve_allows_newlines_around_colon() {
    let m = live_markup().replace(
        "\"continuation\": \"XYZ\"",
        "\"continuation\"\n\t : \n\"XYZ\"",
    );
    let info = resolve_session(&m).expect("whitespace around the colon is fine");
    assert_eq!(info.continuation.as_deref(), Some("XYZ"));
}

#[test]
fn resolved_session_starts_polling_at_initial_cursor() {
    let info = resolve_session(&live_markup()).expect("markup resolves");
    let (state, action) = loop_step(LoopState::Resolving, LoopEvent::Resolved(Ok(info.clone())));
    assert_eq!(action, LoopAction::Poll);
    assert_eq!(state, LoopState::Polling { session: info, cursor: "XYZ".to_string() });

    let resp = ChatResponse {
        actions: vec![],
        continuations: vec![ContinuationEntry {
            timed: Some("ROTATED".to_string()),
            invalidation: None,
        }],
    };
    let outcome = poll_once(&resp).expect("well-shaped response succeeds");
    let (state, action) = loop_step(state, LoopEvent::PollDone(Ok(outcome)));
    match &state {
        LoopState::Polling { cursor, .. } => assert_eq!(cursor, "ROTATED"),
        other => panic!("expected to keep polling, got {:?}", other),
    }
    match action {
        LoopAction::Deliver(messages) => assert!(messages.is_empty()),
        other => panic!("expected a delivery, got {:?}", other),
    }
}
