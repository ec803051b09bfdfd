use companion_core::errors::ServiceError;
use companion_core::supervisor::StopAction;
use companion_core::transport::{
    encode_request, interpret_load_model, interpret_synthesize, load_model_reply, parse_reply,
    synthesize_reply, TtsCommand, TtsRequest,
};
use companion_core::tts::SileroTtsEngine;

#[test]
fn load_model_request_wire_form() {
    let req = SileroTtsEngine::preload_request("en");
    let line = encode_request(&req);
    assert_eq!(line, "{\"command\":\"load_model\",\"language\":\"en\"}");
}

#[test]
fn synthesize_request_wire_form() {
    let engine = SileroTtsEngine::new();
    let req = engine.speak_request("hi there", "happy");
    let line = encode_request(&req);
    assert_eq!(
        line,
        "{\"command\":\"synthesize\",\"text\":\"hi there\",\"language\":\"en\",\"emotion\":\"happy\",\"use_ssml\":true}"
    );
}

#[test]
fn encoded_request_escapes_and_stays_on_one_line() {
    let req = TtsRequest {
        command: TtsCommand::Synthesize,
        text: Some("line one\nline \"two\" \\ done".to_string()),
        language: Some("en".to_string()),
        emotion: Some("neutral".to_string()),
        use_ssml: Some(false),
    };
    let line = encode_request(&req);
    assert!(!line.contains('\n'));
    assert!(!line.contains('\r'));
    assert_eq!(
        line,
        "{\"command\":\"synthesize\",\"text\":\"line one\\nline \\\"two\\\" \\\\ done\",\"language\":\"en\",\"emotion\":\"neutral\",\"use_ssml\":false}"
    );
}

#[test]
fn control_characters_are_escaped() {
    let req = TtsRequest {
        command: TtsCommand::LoadModel,
        text: Some("a\u{1}b".to_string()),
        language: None,
        emotion: None,
        use_ssml: None,
    };
    let line = encode_request(&req);
    assert_eq!(line, "{\"command\":\"load_model\",\"text\":\"a\\u0001b\"}");
}

#[test]
fn load_model_round_trip_succeeds() {
    // a worker stub that echoes a bare success
    let reply = "{\"success\": true}";
    let r = load_model_reply(Some(reply));
    assert!(r.is_ok());
}

#[test]
fn synthesize_failure_surfaces_worker_text_verbatim() {
    let reply = "{\"success\": false, \"error\": \"oom\"}";
    let r = synthesize_reply(Some(reply));
    match r {
        Err(ServiceError::WorkerReportedFailure(msg)) => assert_eq!(msg, "oom"),
        other => panic!("expected the worker's failure, got {:?}", other.err()),
    }
}

#[test]
fn missing_reply_line_is_disconnected() {
    assert!(matches!(
        synthesize_reply(None),
        Err(ServiceError::Disconnected)
    ));
    assert!(matches!(
        load_model_reply(None),
        Err(ServiceError::Disconnected)
    ));
}

#[test]
fn non_json_reply_is_malformed() {
    let r = synthesize_reply(Some("not json at all"));
    assert!(matches!(r, Err(ServiceError::MalformedResponse)));
}

#[test]
fn reply_without_success_field_is_malformed() {
    let r = load_model_reply(Some("{\"error\": \"oops\"}"));
    assert!(matches!(r, Err(ServiceError::MalformedResponse)));
}

#[test]
fn successful_synthesize_without_audio_is_malformed() {
    let r = synthesize_reply(Some("{\"success\": true, \"sample_rate\": 24000}"));
    assert!(matches!(r, Err(ServiceError::MalformedResponse)));
}

#[test]
fn successful_synthesize_hands_back_payload() {
    let r = synthesize_reply(Some(
        "{\"success\": true, \"audio_base64\": \"AAAA\", \"sample_rate\": 24000}",
    ));
    let p = r.expect("payload");
    assert_eq!(p.audio_base64, "AAAA");
    assert_eq!(p.sample_rate, 24000);
}

#[test]
fn missing_sample_rate_defaults() {
    let r = synthesize_reply(Some("{\"success\": true, \"audio_base64\": \"AAAA\"}"));
    let p = r.expect("payload");
    assert_eq!(p.sample_rate, 48000);
}

#[test]
fn failure_without_error_text_uses_fixed_fallbacks() {
    let raw = parse_reply(Some("{\"success\": false}")).expect("fields");
    match interpret_synthesize(raw) {
        Err(ServiceError::WorkerReportedFailure(msg)) => assert_eq!(msg, "Unknown error"),
        other => panic!("expected a worker failure, got {:?}", other.err()),
    }
    let raw = parse_reply(Some("{\"success\": false}")).expect("fields");
    match interpret_load_model(raw) {
        Err(ServiceError::WorkerReportedFailure(msg)) => assert_eq!(msg, "Failed to load model"),
        other => panic!("expected a worker failure, got {:?}", other.err()),
    }
}

#[test]
fn tts_stop_plan_sends_shutdown_then_waits_then_kills() {
    let plan = SileroTtsEngine::stop_plan(40);
    assert_eq!(plan.len(), 3);
    match &plan[0] {
        StopAction::SendLine(l) => assert_eq!(l, "{\"command\":\"shutdown\"}"),
        other => panic!("expected the farewell line, got {:?}", other),
    }
    assert!(matches!(plan[1], StopAction::SleepMillis(500)));
    assert!(matches!(plan[2], StopAction::Kill(40)));
}

#[test]
fn text_beyond_ascii_passes_through_unescaped() {
    let req = TtsRequest {
        command: TtsCommand::Synthesize,
        text: Some("Привет мир".to_string()),
        language: Some("ru".to_string()),
        emotion: Some("happy".to_string()),
        use_ssml: Some(true),
    };
    let line = encode_request(&req);
    assert!(line.contains("Привет мир"));
    assert!(!line.contains('\n'));
}
