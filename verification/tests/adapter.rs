use speech_pipeline::adapter::{accept_segments, transcribe_outcome};
use speech_pipeline::audio::NormalizedAudio;
use speech_pipeline::errors::PipelineError;

#[test]
fn silence_yields_successful_empty_transcript() {
    // An all-silence buffer makes the engine report no segments; that is
    // a successful empty result, not an error.
    let r = transcribe_outcome(Ok(vec![]));
    assert!(r.unwrap().is_empty());
}

#[test]
fn ordered_segments_are_accepted_unchanged() {
    let segs = accept_segments(vec![
        (0, 120, "ciao".to_string()),
        (120, 250, "come stai".to_string()),
    ])
    .unwrap();
    assert_eq!(segs.len(), 2);
    assert_eq!(segs[0].start_cs, 0);
    assert_eq!(segs[0].end_cs, 120);
    assert_eq!(segs[0].text, "ciao");
    assert_eq!(segs[1].start_cs, 120);
    assert_eq!(segs[1].end_cs, 250);
    assert_eq!(segs[1].text, "come stai");
}

#[test]
fn out_of_order_segments_are_rejected() {
    let r = accept_segments(vec![
        (120, 250, "come stai".to_string()),
        (0, 110, "ciao".to_string()),
    ]);
    assert!(matches!(r, Err(PipelineError::Inference(_))));
}

#[test]
fn segment_ending_before_start_is_rejected() {
    let r = accept_segments(vec![(100, 50, "ciao".to_string())]);
    assert!(matches!(r, Err(PipelineError::Inference(_))));
}

#[test]
fn engine_failure_is_surfaced_with_diagnostic() {
    let r = transcribe_outcome(Err("decoder exploded".to_string()));
    match r {
        Err(PipelineError::Inference(detail)) => assert_eq!(detail, "decoder exploded"),
        _ => panic!("engine failure must surface as an inference error"),
    }
}

#[test]
fn empty_audio_never_reaches_inference() {
    let r = NormalizedAudio::validated(vec![]);
    assert!(matches!(r, Err(PipelineError::EmptyBuffer)));
    let ok = NormalizedAudio::validated(vec![0, 0, 0]).unwrap();
    assert_eq!(ok.samples, vec![0, 0, 0]);
}
