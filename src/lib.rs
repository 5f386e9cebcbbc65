//! Driver core for streaming a caller-supplied sample generator to an audio
//! output device: the error taxonomy, the negotiated stream format, and the
//! driver's lifecycle, including the single hand-off of the generator to the
//! audio callback.

pub mod error;
pub mod format;
pub mod driver;

pub use error::SoundError;
pub use format::{Probe, SampleFormat, StreamSpec};
pub use driver::{Driver, Handoff};
