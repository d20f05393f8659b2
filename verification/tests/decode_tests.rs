use chat_relay::decode::ConstrainedDecoder;
use chat_relay::decode::DecodePhase;
use chat_relay::decode::Response;
use chat_relay::decode::parse_response;

#[test]
fn parses_do_variant() {
    match parse_response("Do wave at the crowd") {
        Some(Response::Do(p)) => assert_eq!(p, "wave at the crowd"),
        _ => panic!("expected the Do variant"),
    }
}

#[test]
fn parses_say_variant() {
    match parse_response("Say hello there") {
        Some(Response::Say(p)) => assert_eq!(p, "hello there"),
        _ => panic!("expected the Say variant"),
    }
}

#[test]
fn parses_empty_payloads() {
    match parse_response("Do ") {
        Some(Response::Do(p)) => assert_eq!(p, ""),
        _ => panic!("expected the Do variant"),
    }
}

#[test]
fn rejects_text_outside_the_grammar() {
    assert!(parse_response("").is_none());
    assert!(parse_response("Hello").is_none());
    assert!(parse_response("Do").is_none());
    assert!(parse_response("Say").is_none());
    assert!(parse_response("Dowave").is_none());
    assert!(parse_response("say hi").is_none());
    assert!(parse_response("do wave").is_none());
    assert!(parse_response(" Do wave").is_none());
}

#[test]
fn tracks_phases_while_tag_arrives() {
    let mut d = ConstrainedDecoder::new();
    assert_eq!(d.phase(), DecodePhase::AwaitingVariantTag);
    d.feed("S");
    assert_eq!(d.phase(), DecodePhase::AwaitingVariantTag);
    d.feed("a");
    assert_eq!(d.phase(), DecodePhase::AwaitingVariantTag);
    d.feed("y hi");
    assert_eq!(d.phase(), DecodePhase::AccumulatingVariantPayload);
    match d.finish() {
        Ok(Response::Say(p)) => assert_eq!(p, "hi"),
        _ => panic!("expected the Say variant"),
    }
}

#[test]
fn diverging_prefix_falls_back_to_raw_text() {
    let mut d = ConstrainedDecoder::new();
    d.feed("Nope");
    assert_eq!(d.phase(), DecodePhase::RawText);
    d.feed(" Do wave");
    assert_eq!(d.phase(), DecodePhase::RawText);
    match d.finish() {
        Err(raw) => assert_eq!(raw, "Nope Do wave"),
        Ok(_) => panic!("unparseable text must never come back as an action"),
    }
}

#[test]
fn unfinished_tag_is_not_an_action() {
    let mut d = ConstrainedDecoder::new();
    d.feed("Do");
    assert_eq!(d.phase(), DecodePhase::AwaitingVariantTag);
    match d.finish() {
        Err(raw) => assert_eq!(raw, "Do"),
        Ok(_) => panic!("a bare tag without its space is not a parse"),
    }
}

#[test]
fn fragment_boundaries_do_not_matter() {
    let mut d = ConstrainedDecoder::new();
    d.feed("D");
    d.feed("o w");
    d.feed("ave");
    match d.finish() {
        Ok(Response::Do(p)) => assert_eq!(p, "wave"),
        _ => panic!("expected the Do variant"),
    }
}
