use speech_pipeline::audio::{normalize, RawAudioBuffer};
use speech_pipeline::errors::PipelineError;

fn raw(samples: Vec<i16>, sample_rate_hz: u32, channel_count: u8) -> RawAudioBuffer {
    RawAudioBuffer { samples, sample_rate_hz, channel_count }
}

/// The exact scaling the engine boundary applies to normalized samples.
fn to_float(v: i16) -> f32 {
    v as f32 / 32768.0
}

#[test]
fn normalizer_rejects_empty_input() {
    let r = normalize(raw(vec![], 16000, 1));
    assert!(matches!(r, Err(PipelineError::EmptyBuffer)));
}

#[test]
fn normalizer_never_returns_empty_success() {
    // Even one frame of heavily downsampled input keeps one sample.
    let r = normalize(raw(vec![42], 44100, 1)).unwrap();
    assert!(!r.samples.is_empty());
}

#[test]
fn full_scale_samples_map_to_unit_range_extremes() {
    let r = normalize(raw(vec![i16::MIN, 0, i16::MAX], 16000, 1)).unwrap();
    assert_eq!(r.samples, vec![i16::MIN, 0, i16::MAX]);
    let floats: Vec<f32> = r.samples.iter().map(|&v| to_float(v)).collect();
    assert_eq!(floats[0], -1.0);
    assert_eq!(floats[1], 0.0);
    // The integer maximum maps to 1.0 within one scale step.
    assert!(floats[2] <= 1.0 && floats[2] >= 1.0 - 1.0 / 32768.0);
}

#[test]
fn normalized_values_stay_within_unit_range() {
    let r = normalize(
        raw(
            vec![i16::MIN, i16::MAX, i16::MAX, i16::MIN, 12345, -12345, 7, -7],
            44100,
            2,
        ),
    )
    .unwrap();
    for &v in &r.samples {
        let f = to_float(v);
        assert!((-1.0..=1.0).contains(&f));
    }
}

#[test]
fn stereo_mean_reduction() {
    let r = normalize(raw(vec![100, 200, -300, -100], 16000, 2)).unwrap();
    // One output sample per input frame, each the mean of its two
    // channel samples.
    assert_eq!(r.samples, vec![150, -200]);
}

#[test]
fn stereo_mean_rounds_toward_negative_infinity() {
    let r = normalize(raw(vec![0, 1, -1, -2], 16000, 2)).unwrap();
    assert_eq!(r.samples, vec![0, -2]);
}

#[test]
fn mono_input_at_target_rate_is_unchanged() {
    let r = normalize(raw(vec![5, -7, 9], 16000, 1)).unwrap();
    assert_eq!(r.samples, vec![5, -7, 9]);
}

#[test]
fn downsampling_halves_the_length() {
    let r = normalize(raw(vec![10, 20, 30, 40], 32000, 1)).unwrap();
    assert_eq!(r.samples, vec![10, 30]);
}

#[test]
fn upsampling_scales_the_length_up() {
    let r = normalize(raw(vec![10, 20], 8000, 1)).unwrap();
    assert_eq!(r.samples, vec![10, 10, 20, 20]);
}
