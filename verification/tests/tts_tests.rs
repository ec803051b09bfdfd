use companion_core::errors::ServiceError;
use companion_core::supervisor::{EnsureDecision, Liveness, ProcessConfig, SpawnOutcome};
use companion_core::transport::{encode_request, TtsCommand};
use companion_core::tts::SileroTtsEngine;

fn worker_config() -> ProcessConfig {
    ProcessConfig {
        program: "python".to_string(),
        args: vec!["speech_worker.py".to_string()],
    }
}

#[test]
fn language_defaults_to_english_and_can_change() {
    let mut engine = SileroTtsEngine::new();
    assert_eq!(engine.get_language().expect("language"), "en");
    engine.set_language("de").expect("set");
    assert_eq!(engine.get_language().expect("language"), "de");
}

#[test]
fn speak_request_carries_the_current_language() {
    let mut engine = SileroTtsEngine::new();
    engine.set_language("ru").expect("set");
    let req = engine.speak_request("Привет", "happy");
    assert_eq!(req.command, TtsCommand::Synthesize);
    assert_eq!(req.text.as_deref(), Some("Привет"));
    assert_eq!(req.language.as_deref(), Some("ru"));
    assert_eq!(req.emotion.as_deref(), Some("happy"));
    assert_eq!(req.use_ssml, Some(true));
}

#[test]
fn preload_request_names_only_the_language() {
    let req = SileroTtsEngine::preload_request("en");
    assert_eq!(req.command, TtsCommand::LoadModel);
    assert!(req.text.is_none());
    assert_eq!(req.language.as_deref(), Some("en"));
    assert!(req.emotion.is_none());
    assert!(req.use_ssml.is_none());
}

#[test]
fn shutdown_request_wire_form() {
    let line = encode_request(&SileroTtsEngine::shutdown_request());
    assert_eq!(line, "{\"command\":\"shutdown\"}");
}

#[test]
fn exchange_head_respawns_a_crashed_worker_once() {
    let mut engine = SileroTtsEngine::new();
    engine.configure(worker_config());

    // first exchange: nothing running yet, one spawn
    let d = engine.ensure_running_decide(Liveness::Exited).expect("ensure");
    assert_eq!(d, EnsureDecision::SpawnNeeded);
    assert!(engine.spawn_finish(SpawnOutcome::Spawned(51)).is_ok());

    // second exchange: still alive, nothing demanded
    let d = engine.ensure_running_decide(Liveness::Alive).expect("ensure");
    assert_eq!(d, EnsureDecision::AlreadyLive);

    // the worker dies out of band; the next exchange respawns transparently
    let d = engine.ensure_running_decide(Liveness::Exited).expect("ensure");
    assert_eq!(d, EnsureDecision::SpawnNeeded);
    assert!(engine.spawn_finish(SpawnOutcome::Spawned(52)).is_ok());
}

#[test]
fn unconfigured_engine_cannot_ensure_a_worker() {
    let mut engine = SileroTtsEngine::new();
    assert!(matches!(
        engine.ensure_running_decide(Liveness::Exited),
        Err(ServiceError::NotConfigured)
    ));
}

#[test]
fn stop_without_worker_fails_and_repeats_the_same_way() {
    let mut engine = SileroTtsEngine::new();
    assert!(matches!(engine.stop_decide(), Err(ServiceError::NotRunning)));
    assert!(matches!(engine.stop_decide(), Err(ServiceError::NotRunning)));
}

#[test]
fn stop_releases_the_worker_for_the_plan() {
    let mut engine = SileroTtsEngine::new();
    engine.configure(worker_config());
    engine.ensure_running_decide(Liveness::Exited).expect("ensure");
    engine.spawn_finish(SpawnOutcome::Spawned(60)).expect("spawn");
    let pid = engine.stop_decide().expect("stop");
    assert_eq!(pid, 60);
    assert!(matches!(engine.stop_decide(), Err(ServiceError::NotRunning)));
}
