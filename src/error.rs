use vstd::prelude::*;

verus! {

/// Outcome of negotiating and starting the audio output, kept by the driver
/// for its whole lifetime and never cleared.
#[derive(Debug, Clone, Copy, PartialEq, Eq, Structural)]
pub enum SoundError {
    /// sound initialization was a success
    NoError,
    /// no sound device was found
    NoDevice,
    /// could not create an output stream
    OutputStream,
    /// unsupported output stream format
    UnknownStreamFormat,
}

} // verus!
