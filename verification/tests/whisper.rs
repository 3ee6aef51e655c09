use base64::Engine;
use vooox::whisper::{
    append_segment_to_text, combine_segments_to_text, encode_audio_as_base64,
    ensure_model_outcome, readiness_after_health_check, set_config_outcome, Readiness,
    ServerReply, TranscriptCollector, TranscriptStep, WhisperClient,
};

#[test]
fn whisper_client_base64_audio_roundtrip() {
    let data = b"RIFF fake wav data";
    let encoded = encode_audio_as_base64(data);
    let decoded = base64::engine::general_purpose::STANDARD.decode(&encoded).unwrap();
    assert_eq!(decoded, data);
}

#[test]
fn base64_is_the_standard_alphabet_with_padding() {
    assert_eq!(encode_audio_as_base64(b""), "");
    assert_eq!(encode_audio_as_base64(b"f"), "Zg==");
    assert_eq!(encode_audio_as_base64(b"fo"), "Zm8=");
    assert_eq!(encode_audio_as_base64(b"foo"), "Zm9v");
    assert_eq!(encode_audio_as_base64(&[0xfb, 0xff]), "+/8=");
}

#[test]
fn client_url() {
    let c = WhisperClient::new(8765);
    assert_eq!(c.port(), 8765);
    assert_eq!(c.url(), "ws://127.0.0.1:8765");
}

#[test]
fn segments_are_joined_with_spaces() {
    let mut t = String::new();
    append_segment_to_text(&mut t, "Hallo");
    append_segment_to_text(&mut t, "Welt");
    assert_eq!(t, "Hallo Welt");
    append_segment_to_text(&mut t, "");
    assert_eq!(t, "Hallo Welt ");
    assert_eq!(combine_segments_to_text(String::new(), "full".to_string()), "full");
    assert_eq!(combine_segments_to_text("acc".to_string(), "full".to_string()), "acc");
}

#[test]
fn collector_gathers_until_done() {
    let mut c = TranscriptCollector::new();
    assert!(matches!(c.on_reply(ServerReply::Segment { text: "Hallo".into() }, ""), TranscriptStep::Continue));
    assert!(matches!(c.on_reply(ServerReply::Segment { text: "Welt".into() }, ""), TranscriptStep::Continue));
    match c.on_reply(
        ServerReply::Done { full_text: "ignored".into(), language: "de".into(), duration_ms: 5 },
        "",
    ) {
        TranscriptStep::Finished(Ok(t)) => assert_eq!(t, "Hallo Welt"),
        _ => panic!("wrong step"),
    }
    let mut d = TranscriptCollector::new();
    match d.on_reply(
        ServerReply::Done { full_text: "Hallo Welt".into(), language: "de".into(), duration_ms: 500 },
        "",
    ) {
        TranscriptStep::Finished(Ok(t)) => assert_eq!(t, "Hallo Welt"),
        _ => panic!("wrong step"),
    }
}

#[test]
fn collector_errors() {
    let mut c = TranscriptCollector::new();
    match c.on_reply(ServerReply::Error { msg: "boom".into() }, "") {
        TranscriptStep::Finished(Err(e)) => assert_eq!(e, "boom"),
        _ => panic!("wrong step"),
    }
    match c.on_reply(ServerReply::Bye, "Bye") {
        TranscriptStep::Finished(Err(e)) => assert_eq!(e, "unexpected: Bye"),
        _ => panic!("wrong step"),
    }
}

#[test]
fn request_outcomes() {
    assert_eq!(ensure_model_outcome(ServerReply::Ready { model: "small".into() }, ""), Ok(()));
    assert_eq!(ensure_model_outcome(ServerReply::Error { msg: "no".into() }, ""), Err("no".to_string()));
    assert_eq!(ensure_model_outcome(ServerReply::ConfigOk, "ConfigOk"), Err("unexpected: ConfigOk".to_string()));
    assert_eq!(set_config_outcome(ServerReply::ConfigOk, ""), Ok(()));
    assert_eq!(set_config_outcome(ServerReply::Bye, "Bye"), Err("unexpected: Bye".to_string()));
}

#[test]
fn readiness() {
    assert!(matches!(readiness_after_health_check(true, true, 30), Readiness::Ready));
    assert!(matches!(readiness_after_health_check(false, false, 30), Readiness::Retry));
    match readiness_after_health_check(false, true, 30) {
        Readiness::Failed(m) => assert_eq!(m, "sidecar not ready after 30s"),
        _ => panic!("wrong readiness"),
    }
}
