use speech_pipeline::config::{
    model_file_path, resolve_model_path, CaptureConfig, InferenceParams, SamplingStrategy,
    TARGET_SAMPLE_RATE_HZ,
};
use speech_pipeline::errors::PipelineError;

#[test]
fn capture_config_asks_for_the_engine_rate() {
    let c = CaptureConfig::new(8000);
    assert_eq!(c.sample_rate_hz, TARGET_SAMPLE_RATE_HZ);
    assert_eq!(c.sample_rate_hz, 16000);
    assert_eq!(c.channels, 1);
    assert_eq!(c.duration_ms, 8000);
}

#[test]
fn model_path_follows_the_naming_convention() {
    assert_eq!(
        model_file_path("/models/", "medium"),
        "/models/whisper-medium/ggml-model.bin"
    );
}

#[test]
fn resolved_model_path_uses_the_configured_base() {
    let p = resolve_model_path(Some("/opt/voice/".to_string()), "small").unwrap();
    assert_eq!(p, "/opt/voice/whisper-small/ggml-model.bin");
}

#[test]
fn missing_configuration_is_a_typed_fatal_error() {
    let r = resolve_model_path(None, "medium");
    match r {
        Err(PipelineError::ConfigMissing(name)) => assert_eq!(name, "LINK_MOD_PATH"),
        _ => panic!("absent configuration must fail naming the variable"),
    }
}

#[test]
fn inference_params_assemble_once_and_hold() {
    let mut p = InferenceParams::new(SamplingStrategy::Greedy { best_of: 1 });
    p.set_thread_count(8);
    p.set_translate(false);
    p.set_language_hint(Some("it".to_string()));
    p.set_progress_reporting(false);
    assert_eq!(p.thread_count, 8);
    assert!(!p.translate);
    assert_eq!(p.language_hint.as_deref(), Some("it"));
    assert!(matches!(p.sampling_strategy, SamplingStrategy::Greedy { best_of: 1 }));
    assert!(!p.progress_reporting);
}
