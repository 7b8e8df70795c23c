use speech_pipeline::adapter::transcribe_outcome;
use speech_pipeline::audio::normalize;
use speech_pipeline::capture::CaptureSession;
use speech_pipeline::config::CaptureConfig;
use speech_pipeline::present::render_transcript;

#[test]
fn silent_capture_yields_empty_transcript() {
    // A synthetic 8-second 16 kHz mono capture of recorded silence runs
    // the whole pipeline without error and yields an empty transcript.
    let mut session = CaptureSession::new(CaptureConfig::new(8000));
    let rate = session.start(true).unwrap();
    assert_eq!(rate, 16000);
    assert_eq!(session.wait_ms().unwrap(), 8000);
    session.stop().unwrap();
    let raw = session.accept_buffer(vec![0i16; 8 * 16000], 16000, 1).unwrap();

    let audio = normalize(raw).unwrap();
    assert_eq!(audio.samples.len(), 8 * 16000);
    assert!(audio.samples.iter().all(|&v| v == 0));

    // Recorded silence makes the engine report no segments.
    let engine_output: Result<Vec<(u64, u64, String)>, String> = Ok(vec![]);
    let segments = transcribe_outcome(engine_output).unwrap();
    assert!(segments.is_empty());

    let lines = render_transcript(&segments);
    assert!(lines.is_empty());
}
