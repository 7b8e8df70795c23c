//! A verified audio-capture-to-transcript pipeline.
//!
//! The pipeline runs in five stages: a device availability gate, a capture
//! session that owns the microphone for its lifetime, a format normalizer
//! that turns raw integer PCM into the canonical mono 16 kHz representation
//! the recognition engine expects, an inference adapter that validates the
//! engine's output, and a presenter that renders timestamped transcript
//! lines.
//!
//! Everything that decides or computes lives here with a contract. The
//! hardware capture calls and the recognition engine itself are external
//! collaborators driven by the surrounding binary; this crate hands them
//! plain values and validates what they hand back.

pub mod adapter;
pub mod audio;
pub mod capture;
pub mod config;
pub mod errors;
pub mod present;
