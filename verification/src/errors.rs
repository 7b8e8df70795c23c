//! Error kinds of the pipeline.
//!
//! Configuration and model-load failures are fatal for a run; capture and
//! inference failures carry enough context to diagnose. No failure is ever
//! silently discarded: every variant renders a descriptive message.

use vstd::prelude::*;
use vstd::string::StringExecFns;

verus! {

/// One failure of the capture-to-transcript pipeline.
#[derive(Debug, Clone)]
pub enum PipelineError {
    /// No capture hardware is registered on this system; non-retryable.
    DeviceUnavailable,
    /// A capture session is already active on the device.
    DeviceBusy,
    /// The device refused to begin capturing at the requested rate.
    CaptureStart,
    /// A session method was called in a state that does not allow it.
    InvalidSessionState,
    /// Zero-length audio was handed to the normalizer or to inference.
    EmptyBuffer,
    /// The model file could not be loaded; carries diagnostic text.
    ModelLoad(String),
    /// The recognition engine failed; carries its diagnostic text.
    Inference(String),
    /// A required configuration variable is absent; carries its name.
    ConfigMissing(String),
}

/// The descriptive text that `PipelineError::message` renders.
pub open spec fn spec_message(e: PipelineError) -> Seq<char> {
    match e {
        PipelineError::DeviceUnavailable => "audio capture is not supported by this system"@,
        PipelineError::DeviceBusy => "a capture session is already active on the device"@,
        PipelineError::CaptureStart => "the capture device refused to start at the requested rate"@,
        PipelineError::InvalidSessionState => "capture session method called in the wrong state"@,
        PipelineError::EmptyBuffer => "audio buffer is empty"@,
        PipelineError::ModelLoad(detail) => "failed to load model: "@ + detail@,
        PipelineError::Inference(detail) => "inference failed: "@ + detail@,
        PipelineError::ConfigMissing(name) => "missing required configuration variable: "@ + name@,
    }
}

impl PipelineError {
    /// A descriptive, diagnosable message for this failure.
    pub fn message(&self) -> (r: String)
        ensures
            r@ == spec_message(*self),
    {
        match self {
            PipelineError::DeviceUnavailable => {
                "audio capture is not supported by this system".to_owned()
            },
            PipelineError::DeviceBusy => {
                "a capture session is already active on the device".to_owned()
            },
            PipelineError::CaptureStart => {
                "the capture device refused to start at the requested rate".to_owned()
            },
            PipelineError::InvalidSessionState => {
                "capture session method called in the wrong state".to_owned()
            },
            PipelineError::EmptyBuffer => "audio buffer is empty".to_owned(),
            PipelineError::ModelLoad(detail) => {
                let mut s = "failed to load model: ".to_owned();
                s.append(detail.as_str());
                s
            },
            PipelineError::Inference(detail) => {
                let mut s = "inference failed: ".to_owned();
                s.append(detail.as_str());
                s
            },
            PipelineError::ConfigMissing(name) => {
                let mut s = "missing required configuration variable: ".to_owned();
                s.append(name.as_str());
                s
            },
        }
    }
}

} // verus!
