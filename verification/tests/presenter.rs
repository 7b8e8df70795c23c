use speech_pipeline::adapter::TranscriptSegment;
use speech_pipeline::errors::PipelineError;
use speech_pipeline::present::{render_segment, render_transcript};

fn seg(start_cs: u64, end_cs: u64, text: &str) -> TranscriptSegment {
    TranscriptSegment { start_cs, end_cs, text: text.to_string() }
}

#[test]
fn two_segments_render_two_exact_lines() {
    let segs = vec![seg(0, 120, "ciao"), seg(120, 250, "come stai")];
    let lines = render_transcript(&segs);
    assert_eq!(lines.len(), 2);
    assert_eq!(lines[0], "[0 - 1.2]: ciao");
    assert_eq!(lines[1], "[1.2 - 2.5]: come stai");
}

#[test]
fn segments_render_in_received_order() {
    // The presenter never reorders: lines come out exactly as handed in,
    // even from a faulty upstream (which the adapter would reject).
    let segs = vec![seg(500, 600, "later"), seg(0, 100, "earlier")];
    let lines = render_transcript(&segs);
    assert_eq!(lines[0], "[5 - 6]: later");
    assert_eq!(lines[1], "[0 - 1]: earlier");
}

#[test]
fn offsets_render_fixed_precision_seconds() {
    assert_eq!(render_segment(&seg(5, 123, "x")), "[0.05 - 1.23]: x");
    assert_eq!(render_segment(&seg(1000, 6000, "y")), "[10 - 60]: y");
    assert_eq!(render_segment(&seg(130, 10101, "z")), "[1.3 - 101.01]: z");
}

#[test]
fn empty_transcript_renders_no_lines() {
    let lines = render_transcript(&vec![]);
    assert!(lines.is_empty());
}

#[test]
fn errors_render_descriptive_messages() {
    assert_eq!(
        PipelineError::DeviceUnavailable.message(),
        "audio capture is not supported by this system"
    );
    assert_eq!(
        PipelineError::ConfigMissing("LINK_MOD_PATH".to_string()).message(),
        "missing required configuration variable: LINK_MOD_PATH"
    );
    assert_eq!(
        PipelineError::Inference("decoder exploded".to_string()).message(),
        "inference failed: decoder exploded"
    );
    assert_eq!(PipelineError::EmptyBuffer.message(), "audio buffer is empty");
    assert_eq!(
        PipelineError::DeviceBusy.message(),
        "a capture session is already active on the device"
    );
    assert_eq!(
        PipelineError::CaptureStart.message(),
        "the capture device refused to start at the requested rate"
    );
    assert_eq!(
        PipelineError::InvalidSessionState.message(),
        "capture session method called in the wrong state"
    );
    assert_eq!(
        PipelineError::ModelLoad("bad file".to_string()).message(),
        "failed to load model: bad file"
    );
}
