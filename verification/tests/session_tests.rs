use chat_relay::decode::Response;
use chat_relay::session::Mode;
use chat_relay::session::RelaySession;
use chat_relay::session::SessionPhase;
use chat_relay::session::generation_fallback;

#[test]
fn streamed_turn_accumulates_and_records() {
    let mut s = RelaySession::new(Mode::FreeText);
    assert_eq!(s.phase(), SessionPhase::Receiving);

    let user = s.on_client_message("Greet me", 100);
    assert_eq!(user.role, "user");
    assert_eq!(user.content, "Greet me");
    assert_eq!(user.timestamp, 100);
    assert!(user.id.is_none());
    assert_eq!(s.phase(), SessionPhase::Generating);

    let mut sent: Vec<String> = Vec::new();
    for fragment in ["Hello", " ,", " world", "!"] {
        if let Some(piece) = s.on_fragment(fragment) {
            sent.push(piece);
        }
    }
    assert_eq!(sent, vec!["Hello", ",", "world", "!"]);

    let outcome = s.on_stream_end(200);
    assert!(outcome.to_send.is_none());
    assert!(outcome.action.is_none());
    assert_eq!(outcome.record.role, "assistant");
    assert_eq!(outcome.record.content, "Hello,world!");
    assert_eq!(outcome.record.timestamp, 200);
    assert!(outcome.record.id.is_none());
    assert_eq!(s.phase(), SessionPhase::Receiving);
}

#[test]
fn whitespace_fragment_changes_nothing() {
    let mut s = RelaySession::new(Mode::FreeText);
    s.on_client_message("hi", 1);
    assert!(s.on_fragment("Hello").is_some());
    assert!(s.on_fragment("   ").is_none());
    let outcome = s.on_stream_end(2);
    assert_eq!(outcome.record.content, "Hello");
}

#[test]
fn zero_fragment_turn_sends_one_fallback_and_records_no_empty_content() {
    let mut s = RelaySession::new(Mode::FreeText);
    s.on_client_message("hi", 1);
    let outcome = s.on_stream_end(2);
    assert_eq!(outcome.to_send, Some(generation_fallback()));
    assert_eq!(outcome.record.content, generation_fallback());
    assert!(!outcome.record.content.is_empty());
    assert!(outcome.action.is_none());
    assert_eq!(s.phase(), SessionPhase::Receiving);
}

#[test]
fn two_turns_record_in_order_with_increasing_timestamps() {
    let mut s = RelaySession::new(Mode::FreeText);
    let mut records = Vec::new();

    records.push(s.on_client_message("first", 10));
    s.on_fragment("one");
    records.push(s.on_stream_end(20).record);

    records.push(s.on_client_message("second", 30));
    s.on_fragment("two");
    records.push(s.on_stream_end(40).record);

    let roles: Vec<&str> = records.iter().map(|r| r.role.as_str()).collect();
    assert_eq!(roles, vec!["user", "assistant", "user", "assistant"]);
    for pair in records.windows(2) {
        assert!(pair[0].timestamp < pair[1].timestamp);
    }
    assert_eq!(records[0].content, "first");
    assert_eq!(records[1].content, "one");
    assert_eq!(records[2].content, "second");
    assert_eq!(records[3].content, "two");
}

#[test]
fn structured_turn_surfaces_payload_and_action() {
    let mut s = RelaySession::new(Mode::Structured);
    s.on_client_message("wave please", 1);
    assert!(s.on_fragment("Do w").is_none());
    assert!(s.on_fragment("ave").is_none());
    let outcome = s.on_stream_end(2);
    assert_eq!(outcome.to_send, Some("wave".to_string()));
    assert_eq!(outcome.record.content, "Do wave");
    match outcome.action {
        Some(Response::Do(p)) => assert_eq!(p, "wave"),
        _ => panic!("expected the Do variant"),
    }
}

#[test]
fn structured_turn_outside_grammar_is_surfaced_as_prose() {
    let mut s = RelaySession::new(Mode::Structured);
    s.on_client_message("wave please", 1);
    s.on_fragment("Sorry, I cannot");
    let outcome = s.on_stream_end(2);
    assert!(outcome.action.is_none());
    assert_eq!(outcome.to_send, Some("Sorry, I cannot".to_string()));
    assert_eq!(outcome.record.content, "Sorry, I cannot");
}

#[test]
fn close_is_terminal() {
    let mut s = RelaySession::new(Mode::FreeText);
    s.on_client_message("hi", 1);
    s.on_fragment("partial");
    s.close();
    assert_eq!(s.phase(), SessionPhase::Closed);
}
