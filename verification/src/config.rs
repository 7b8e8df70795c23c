//! Run configuration: capture settings, inference parameters, and model
//! file resolution.
//!
//! Both configuration values are built once per run and read-only
//! thereafter; the setters below are for assembling `InferenceParams`
//! before it is handed to the inference call.

use vstd::prelude::*;
use vstd::string::StringExecFns;
use crate::errors::PipelineError;

verus! {

/// The sample rate the recognition engine requires, in hertz.
pub const TARGET_SAMPLE_RATE_HZ: u32 = 16000;

/// Settings for one capture run.
#[derive(Debug, Clone, Copy, PartialEq, Eq, Structural)]
pub struct CaptureConfig {
    /// Requested capture rate; must match the engine's required rate,
    /// otherwise an explicit resampling step is needed downstream.
    pub sample_rate_hz: u32,
    /// Number of interleaved channels the device captures.
    pub channels: u8,
    /// How long the session records, in milliseconds.
    pub duration_ms: u64,
}

impl CaptureConfig {
    /// A capture configuration is well formed when it asks for the
    /// engine's required rate and at least one channel.
    pub open spec fn wf(self) -> bool {
        self.sample_rate_hz == TARGET_SAMPLE_RATE_HZ && self.channels >= 1
    }

    /// A mono capture at the engine's required rate for `duration_ms`.
    pub fn new(duration_ms: u64) -> (c: CaptureConfig)
        ensures
            c.wf(),
            c.sample_rate_hz == TARGET_SAMPLE_RATE_HZ,
            c.channels == 1,
            c.duration_ms == duration_ms,
    {
        CaptureConfig { sample_rate_hz: TARGET_SAMPLE_RATE_HZ, channels: 1, duration_ms }
    }
}

/// The decoding policy the recognition engine uses to pick output tokens.
#[derive(Debug, Clone, Copy, PartialEq, Eq, Structural)]
pub enum SamplingStrategy {
    /// Greedy decoding, keeping the best of `best_of` candidates.
    Greedy { best_of: u32 },
    /// Beam search with `beam_size` beams.
    BeamSearch { beam_size: u32 },
}

/// The parameter set for one inference call. Immutable once passed to the
/// inference adapter for a given call.
#[derive(Debug, Clone)]
pub struct InferenceParams {
    /// Parallelism of the inference call.
    pub thread_count: u32,
    /// Translate into the pivot language rather than transcribe.
    pub translate: bool,
    /// Hint for the spoken language, as a language code.
    pub language_hint: Option<String>,
    /// Token decoding policy.
    pub sampling_strategy: SamplingStrategy,
    /// Whether the engine reports progress while it runs.
    pub progress_reporting: bool,
}

impl InferenceParams {
    /// A fresh parameter set with the given decoding policy: one thread,
    /// transcription in the source language, no language hint, and no
    /// progress reporting.
    pub fn new(sampling_strategy: SamplingStrategy) -> (p: InferenceParams)
        ensures
            p.thread_count == 1,
            !p.translate,
            p.language_hint is None,
            p.sampling_strategy == sampling_strategy,
            !p.progress_reporting,
    {
        InferenceParams {
            thread_count: 1,
            translate: false,
            language_hint: None,
            sampling_strategy,
            progress_reporting: false,
        }
    }

    /// Set the parallelism of the inference call.
    pub fn set_thread_count(&mut self, thread_count: u32)
        ensures
            *final(self) == (InferenceParams { thread_count, ..*old(self) }),
    {
        self.thread_count = thread_count;
    }

    /// Choose between translating and transcribing.
    pub fn set_translate(&mut self, translate: bool)
        ensures
            *final(self) == (InferenceParams { translate, ..*old(self) }),
    {
        self.translate = translate;
    }

    /// Set or clear the spoken-language hint.
    pub fn set_language_hint(&mut self, language_hint: Option<String>)
        ensures
            *final(self) == (InferenceParams { language_hint, ..*old(self) }),
    {
        self.language_hint = language_hint;
    }

    /// Enable or disable progress reporting.
    pub fn set_progress_reporting(&mut self, progress_reporting: bool)
        ensures
            *final(self) == (InferenceParams { progress_reporting, ..*old(self) }),
    {
        self.progress_reporting = progress_reporting;
    }
}

/// The fixed layout of a model file under the configured base directory.
pub open spec fn spec_model_file_path(base: Seq<char>, model_size: Seq<char>) -> Seq<char> {
    base + "whisper-"@ + model_size + "/ggml-model.bin"@
}

/// The path of the model file of the given size under `base`, following
/// the naming convention `<base>whisper-<size>/ggml-model.bin`.
pub fn model_file_path(base: &str, model_size: &str) -> (p: String)
    ensures
        p@ == spec_model_file_path(base@, model_size@),
{
    let mut p = base.to_owned();
    p.append("whisper-");
    p.append(model_size);
    p.append("/ggml-model.bin");
    p
}

/// Resolve the model file path from the configured base directory, or fail
/// when the configuration is absent.
///
/// `base` is the value of the required configuration variable
/// `LINK_MOD_PATH`, or `None` when it is not set; a missing value is a
/// fatal, typed error naming the variable.
pub fn resolve_model_path(base: Option<String>, model_size: &str) -> (r: Result<
    String,
    PipelineError,
>)
    ensures
        match r {
            Ok(p) => base matches Some(b) && p@ == spec_model_file_path(b@, model_size@),
            Err(e) => base is None && (e matches PipelineError::ConfigMissing(name) && name@
                == "LINK_MOD_PATH"@),
        },
{
    match base {
        Some(b) => Ok(model_file_path(b.as_str(), model_size)),
        None => Err(PipelineError::ConfigMissing("LINK_MOD_PATH".to_owned())),
    }
}

} // verus!
