use vstd::prelude::*;
use crate::error::SoundError;

verus! {

/// Numeric representation of the samples that the output device expects.
#[derive(Debug, Clone, Copy, PartialEq, Eq, Structural)]
pub enum SampleFormat {
    /// 16-bit signed integer; 0 is silence.
    I16,
    /// 16-bit unsigned integer; 32768 is silence.
    U16,
    /// 32-bit float in [-1.0, 1.0].
    F32,
}

/// The stream configuration captured once during negotiation.
#[derive(Debug, Clone, Copy, PartialEq, Eq, Structural)]
pub struct StreamSpec {
    /// frames per second
    pub sample_rate: u32,
    /// number of interleaved channel slots per frame
    pub channels: u16,
    /// sample representation of the output buffer
    pub format: SampleFormat,
}

/// What the audio backend answered when asked for a default output device
/// and its preferred configuration. `D` is the backend's device handle.
pub enum Probe<D> {
    /// the host exposes no default output device
    NoDevice,
    /// a device exists but its preferred configuration could not be read
    ConfigUnreadable,
    /// a device and its preferred configuration
    Ready(D, StreamSpec),
}

/// The error state that a probe leaves on a newly constructed driver.
pub open spec fn probe_error<D>(p: Probe<D>) -> SoundError {
    match p {
        Probe::NoDevice => SoundError::NoDevice,
        Probe::ConfigUnreadable => SoundError::UnknownStreamFormat,
        Probe::Ready(_, _) => SoundError::NoError,
    }
}

} // verus!
