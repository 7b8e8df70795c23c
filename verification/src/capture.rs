//! Capture session lifecycle.
//!
//! A session owns the capture device from a successful `start` until
//! `stop`. The session itself is a state machine `Idle -> Capturing ->
//! Stopped`; the surrounding binary performs the actual hardware calls
//! (start the recorder, sleep for the capture duration, stop, drain the
//! buffer) and feeds their outcomes back in, so every decision the
//! lifecycle makes is verified here.
//!
//! The device availability gate is enforced at `start`: when no capture
//! device is registered, `start` refuses with `DeviceUnavailable` and the
//! session never leaves `Idle`, so no capture resource is allocated.

use vstd::prelude::*;
use crate::audio::RawAudioBuffer;
use crate::config::CaptureConfig;
use crate::errors::PipelineError;

verus! {

/// Lifecycle state of a capture session.
#[derive(Debug, Clone, Copy, PartialEq, Eq, Structural)]
pub enum SessionState {
    /// No capture begun; the device is not held.
    Idle,
    /// The device is held and capturing.
    Capturing,
    /// Capture has been halted; the captured buffer may be accepted.
    Stopped,
}

/// One capture session over one device.
#[derive(Debug, Clone)]
pub struct CaptureSession {
    /// Lifecycle state; methods move it strictly `Idle -> Capturing ->
    /// Stopped`.
    pub state: SessionState,
    /// The settings this session captures with.
    pub config: CaptureConfig,
}

impl CaptureSession {
    /// A fresh, idle session with the given settings.
    pub fn new(config: CaptureConfig) -> (s: CaptureSession)
        requires
            config.wf(),
        ensures
            s.state == SessionState::Idle,
            s.config == config,
    {
        CaptureSession { state: SessionState::Idle, config }
    }

    /// Begin capture, after checking the device availability gate.
    ///
    /// `device_available` says whether a capture device is registered,
    /// checked before any resource is allocated. On success the returned rate is the one the recorder
    /// must be started at. Starting while another capture is active fails
    /// with `DeviceBusy`; starting a session that already ran fails with
    /// `InvalidSessionState`; in every failure the session is unchanged,
    /// so an unavailable device is never started.
    pub fn start(&mut self, device_available: bool) -> (r: Result<u32, PipelineError>)
        ensures
            !device_available ==> (r matches Err(e) && e == PipelineError::DeviceUnavailable
                && *final(self) == *old(self)),
            device_available && old(self).state == SessionState::Idle ==> (r matches Ok(rate)
                && rate == old(self).config.sample_rate_hz && final(self).state
                == SessionState::Capturing && final(self).config == old(self).config),
            device_available && old(self).state == SessionState::Capturing ==> (r matches Err(e)
                && e == PipelineError::DeviceBusy && *final(self) == *old(self)),
            device_available && old(self).state == SessionState::Stopped ==> (r matches Err(e)
                && e == PipelineError::InvalidSessionState && *final(self) == *old(self)),
    {
        if !device_available {
            Err(PipelineError::DeviceUnavailable)
        } else {
            match self.state {
                SessionState::Idle => {
                    self.state = SessionState::Capturing;
                    Ok(self.config.sample_rate_hz)
                },
                SessionState::Capturing => Err(PipelineError::DeviceBusy),
                SessionState::Stopped => Err(PipelineError::InvalidSessionState),
            }
        }
    }

    /// How long the caller must block-wait while capture runs, in
    /// milliseconds. Only meaningful while capturing.
    pub fn wait_ms(&self) -> (r: Result<u64, PipelineError>)
        ensures
            self.state == SessionState::Capturing ==> (r matches Ok(d) && d
                == self.config.duration_ms),
            self.state != SessionState::Capturing ==> (r matches Err(e) && e
                == PipelineError::InvalidSessionState),
    {
        match self.state {
            SessionState::Capturing => Ok(self.config.duration_ms),
            _ => Err(PipelineError::InvalidSessionState),
        }
    }

    /// Halt capture. Stopping a session that is not capturing is a
    /// programming error; the session is unchanged in that case.
    pub fn stop(&mut self) -> (r: Result<(), PipelineError>)
        ensures
            old(self).state == SessionState::Capturing ==> r is Ok && final(self).state
                == SessionState::Stopped && final(self).config == old(self).config,
            old(self).state != SessionState::Capturing ==> (r matches Err(e) && e
                == PipelineError::InvalidSessionState && *final(self) == *old(self)),
    {
        match self.state {
            SessionState::Capturing => {
                self.state = SessionState::Stopped;
                Ok(())
            },
            _ => Err(PipelineError::InvalidSessionState),
        }
    }

    /// Take ownership of the samples the recorder drained, as a raw
    /// buffer stamped with the rate and channel count the device reports.
    ///
    /// Only a stopped session has a buffer to hand over; any other state
    /// is a programming error and the samples are not accepted.
    pub fn accept_buffer(&self, samples: Vec<i16>, sample_rate_hz: u32, channel_count: u8) -> (r:
        Result<RawAudioBuffer, PipelineError>)
        requires
            sample_rate_hz >= 1,
            channel_count >= 1,
            samples@.len() % (channel_count as nat) == 0,
        ensures
            self.state == SessionState::Stopped ==> (r matches Ok(raw) && raw.wf() && raw.samples@
                == samples@ && raw.sample_rate_hz == sample_rate_hz && raw.channel_count
                == channel_count),
            self.state != SessionState::Stopped ==> (r matches Err(e) && e
                == PipelineError::InvalidSessionState),
    {
        match self.state {
            SessionState::Stopped => Ok(
                RawAudioBuffer { samples, sample_rate_hz, channel_count },
            ),
            _ => Err(PipelineError::InvalidSessionState),
        }
    }
}

} // verus!
