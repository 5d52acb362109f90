use united_chat::client::ChatResponse;
use united_chat::client::ContinuationCursor;
use united_chat::client::ContinuationEntry;
use united_chat::client::PollError;
use united_chat::client::ProtocolError;
use united_chat::messages::Badge;
use united_chat::messages::MessageRun;
use united_chat::messages::RawChatAction;
use united_chat::messages::TextMessage;
use united_chat::messages::normalize;
use united_chat::client::poll_once;
use united_chat::polling::LoopAction;
use united_chat::polling::LoopEvent;
use united_chat::polling::LoopState;
use united_chat::polling::loop_step;
use united_chat::session::SessionInfo;
use united_chat::session::SessionResolutionError;
use united_chat::session::StreamType;
use united_chat::themes;

fn empty_message() -> TextMessage {
    TextMessage {
        author_name: None,
        author_external_channel_id: None,
        author_badges: vec![],
        runs: vec![],
        timestamp_usec: None,
        tracking_params: None,
    }
}

fn action_with(message: TextMessage) -> RawChatAction {
    RawChatAction {
        has_client_id: true,
        text_message: Some(message),
    }
}

#[test]
fn normalize_excludes_unidentified_actions() {
    let identified = action_with(empty_message());
    let unidentified = RawChatAction {
        has_client_id: false,
        text_message: Some(empty_message()),
    };
    let actions = vec![unidentified, identified];
    let out = normalize(&actions);
    assert_eq!(out.len(), 1);
}

#[test]
fn normalize_skips_unrecognized_actions() {
    let actions = vec![
        RawChatAction { has_client_id: true, text_message: None },
        action_with(empty_message()),
    ];
    let out = normalize(&actions);
    assert_eq!(out.len(), 1);
}

#[test]
fn normalize_text_then_emoji() {
    let mut m = empty_message();
    m.runs = vec![
        MessageRun::Text("hello".to_string()),
        MessageRun::Emoji {
            url: Some("https://img.example/e.png".to_string()),
            name: Some(":wave:".to_string()),
        },
    ];
    let out = normalize(&vec![action_with(m)]);
    assert_eq!(
        out[0].message,
        "hello <img id=\":wave:\" src=\"https://img.example/e.png\" alt=\":wave:\" />"
    );
}

#[test]
fn normalize_joins_runs_with_single_spaces() {
    let mut m = empty_message();
    m.runs = vec![
        MessageRun::Text("a".to_string()),
        MessageRun::Unrecognized,
        MessageRun::Text("b".to_string()),
        MessageRun::Text("c".to_string()),
    ];
    let out = normalize(&vec![action_with(m)]);
    assert_eq!(out[0].message, "a b c");
}

#[test]
fn normalize_emoji_defaults() {
    let mut m = empty_message();
    m.runs = vec![MessageRun::Emoji { url: None, name: None }];
    let out = normalize(&vec![action_with(m)]);
    assert_eq!(
        out[0].message,
        "<img id=\"Unknown Emoji\" src=\"Unknown Emoji URL\" alt=\"Unknown Emoji\" />"
    );
}

#[test]
fn normalize_field_defaults() {
    let out = normalize(&vec![action_with(empty_message())]);
    assert_eq!(out[0].author_id, "Unknown Author ID");
    assert_eq!(out[0].author_name, "Unknown Author");
    assert_eq!(out[0].author_badges, Vec::<String>::new());
    assert_eq!(out[0].message, "");
    assert_eq!(out[0].message_emotes, Vec::<String>::new());
    assert_eq!(out[0].timestamp, "Unknown Timestamp");
    assert_eq!(out[0].tracking_params, "Unknown Tracking Params");
}

#[test]
fn normalize_populated_fields() {
    let mut m = empty_message();
    m.author_name = Some("streamer".to_string());
    m.author_external_channel_id = Some("UC123".to_string());
    m.timestamp_usec = Some("1700000000000000".to_string());
    m.tracking_params = Some("trk".to_string());
    let out = normalize(&vec![action_with(m)]);
    assert_eq!(out[0].author_name, "streamer");
    assert_eq!(out[0].author_id, "UC123");
    assert_eq!(out[0].timestamp, "1700000000000000");
    assert_eq!(out[0].tracking_params, "trk");
}

#[test]
fn normalize_badges_skip_missing_thumbnails() {
    let mut m = empty_message();
    m.author_badges = vec![
        Badge { thumbnail_url: Some("https://img.example/mod.png".to_string()) },
        Badge { thumbnail_url: None },
        Badge { thumbnail_url: Some("https://img.example/member.png".to_string()) },
    ];
    let out = normalize(&vec![action_with(m)]);
    assert_eq!(
        out[0].author_badges,
        vec![
            "https://img.example/mod.png".to_string(),
            "https://img.example/member.png".to_string(),
        ]
    );
}

fn entry_timed(token: &str) -> ContinuationEntry {
    ContinuationEntry { timed: Some(token.to_string()), invalidation: None }
}

fn entry_invalidation(token: &str) -> ContinuationEntry {
    ContinuationEntry { timed: None, invalidation: Some(token.to_string()) }
}

#[test]
fn poll_rotates_timed_cursor() {
    let resp = ChatResponse {
        actions: vec![action_with(empty_message())],
        continuations: vec![entry_timed("NEXT")],
    };
    let out = poll_once(&resp).expect("well-shaped response succeeds");
    assert_eq!(out.next_cursor, ContinuationCursor::Timed("NEXT".to_string()));
    assert_eq!(out.messages.len(), 1);
    assert!(!out.no_actions);
}

#[test]
fn poll_rotates_invalidation_cursor() {
    let resp = ChatResponse {
        actions: vec![],
        continuations: vec![entry_invalidation("NEXT2")],
    };
    let out = poll_once(&resp).expect("well-shaped response succeeds");
    assert_eq!(
        out.next_cursor,
        ContinuationCursor::Invalidation("NEXT2".to_string())
    );
}

#[test]
fn poll_prefers_timed_shape() {
    let resp = ChatResponse {
        actions: vec![],
        continuations: vec![ContinuationEntry {
            timed: Some("T".to_string()),
            invalidation: Some("I".to_string()),
        }],
    };
    let out = poll_once(&resp).expect("well-shaped response succeeds");
    assert_eq!(out.next_cursor, ContinuationCursor::Timed("T".to_string()));
}

#[test]
fn poll_unknown_continuation_shape() {
    let resp = ChatResponse {
        actions: vec![],
        continuations: vec![ContinuationEntry { timed: None, invalidation: None }],
    };
    assert_eq!(poll_once(&resp), Err(ProtocolError::UnknownContinuationShape));
}

#[test]
fn poll_empty_actions_is_not_an_error() {
    let resp = ChatResponse {
        actions: vec![],
        continuations: vec![entry_timed("ROTATED")],
    };
    let out = poll_once(&resp).expect("an empty batch is a valid outcome");
    assert!(out.no_actions);
    assert_eq!(out.messages.len(), 0);
    assert_eq!(out.next_cursor, ContinuationCursor::Timed("ROTATED".to_string()));
}

#[test]
fn poll_empty_continuations_is_fatal() {
    let resp = ChatResponse { actions: vec![], continuations: vec![] };
    assert_eq!(poll_once(&resp), Err(ProtocolError::MissingContinuationList));
}

fn live_session() -> SessionInfo {
    SessionInfo {
        is_replay: None,
        api_key: "ABC123".to_string(),
        stream_type: StreamType::Live,
        continuation: Some("XYZ".to_string()),
        scheduled_start_time: None,
        client_version: "2.20240101.00.00".to_string(),
        video_id: "abc123".to_string(),
    }
}

#[test]
fn loop_resolution_starts_polling() {
    let (state, action) = loop_step(
        LoopState::Resolving,
        LoopEvent::Resolved(Ok(live_session())),
    );
    assert_eq!(action, LoopAction::Poll);
    assert_eq!(
        state,
        LoopState::Polling { session: live_session(), cursor: "XYZ".to_string() }
    );
}

#[test]
fn loop_resolution_failure_is_terminal() {
    let (state, action) = loop_step(
        LoopState::Resolving,
        LoopEvent::Resolved(Err(SessionResolutionError::ReplayNotSupported)),
    );
    assert_eq!(
        state,
        LoopState::Failed { reason: SessionResolutionError::ReplayNotSupported }
    );
    assert_eq!(
        action,
        LoopAction::ReportResolutionFailure(SessionResolutionError::ReplayNotSupported)
    );
}

#[test]
fn loop_successful_poll_rotates_cursor() {
    let polling = LoopState::Polling { session: live_session(), cursor: "XYZ".to_string() };
    let resp = ChatResponse {
        actions: vec![action_with(empty_message())],
        continuations: vec![entry_timed("NEXT")],
    };
    let outcome = poll_once(&resp).expect("well-shaped response succeeds");
    let (state, action) = loop_step(polling, LoopEvent::PollDone(Ok(outcome)));
    assert_eq!(
        state,
        LoopState::Polling { session: live_session(), cursor: "NEXT".to_string() }
    );
    match action {
        LoopAction::Deliver(messages) => assert_eq!(messages.len(), 1),
        other => panic!("expected a delivery, got {:?}", other),
    }
}

#[test]
fn loop_network_failure_keeps_cursor() {
    let polling = LoopState::Polling { session: live_session(), cursor: "XYZ".to_string() };
    let (state, action) = loop_step(polling, LoopEvent::PollDone(Err(PollError::Network)));
    assert_eq!(
        state,
        LoopState::Polling { session: live_session(), cursor: "XYZ".to_string() }
    );
    assert_eq!(action, LoopAction::ReportSoft);
}

#[test]
fn loop_protocol_failure_stops() {
    let polling = LoopState::Polling { session: live_session(), cursor: "XYZ".to_string() };
    let (state, action) = loop_step(
        polling,
        LoopEvent::PollDone(Err(PollError::Protocol(ProtocolError::MissingContinuationList))),
    );
    assert_eq!(state, LoopState::Stopped);
    assert_eq!(
        action,
        LoopAction::ReportFatal(ProtocolError::MissingContinuationList)
    );
}

#[test]
fn loop_cancellation_is_immediate() {
    let polling = LoopState::Polling { session: live_session(), cursor: "XYZ".to_string() };
    let (state, action) = loop_step(polling, LoopEvent::Cancelled);
    assert_eq!(state, LoopState::Stopped);
    assert_eq!(action, LoopAction::Idle);
}

#[test]
fn theme_templates_are_populated() {
    let d = themes::default();
    let s = themes::sakura();
    assert!(d.contains("{formatedMessage}"));
    assert!(d.contains("div id={id}"));
    assert!(s.contains("{formatedMessage}"));
    assert!(s.contains("div id={id}"));
    assert_ne!(d, s);
}
