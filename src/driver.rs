use vstd::prelude::*;
use crate::error::SoundError;
use crate::format::{probe_error, Probe, StreamSpec};

verus! {

/// Everything that moves from the control side to the audio callback when
/// the driver starts: the device to open, the generator, and the negotiated
/// configuration whose sample rate the generator is initialised with.
pub struct Handoff<D, G> {
    pub device: D,
    pub generator: G,
    pub spec: StreamSpec,
}

impl<D, G> Handoff<D, G> {
    /// The sample rate that the generator is to be initialised with.
    pub fn sample_rate(&self) -> (r: u32)
        ensures
            r == self.spec.sample_rate,
    {
        self.spec.sample_rate
    }
}

/// The abstract state of a driver.
pub struct DriverView<D, G> {
    /// the negotiated configuration, until it is handed off
    pub spec: Option<StreamSpec>,
    /// the output device, until it is handed off
    pub device: Option<D>,
    /// the generator, until it is handed off
    pub generator: Option<G>,
    /// whether the event channel to the audio callback exists
    pub delivering: bool,
    /// the error state
    pub err: SoundError,
}

/// Control-side state of the audio driver: it owns the configuration, the
/// device and the generator until `start` moves them, once, to the audio
/// callback, and records the error state of negotiation and start.
pub struct Driver<D, G> {
    spec: Option<StreamSpec>,
    device: Option<D>,
    generator: Option<G>,
    delivering: bool,
    err: SoundError,
}

impl<D, G> View for Driver<D, G> {
    type V = DriverView<D, G>;

    closed spec fn view(&self) -> DriverView<D, G> {
        DriverView {
            spec: self.spec,
            device: self.device,
            generator: self.generator,
            delivering: self.delivering,
            err: self.err,
        }
    }
}

/// The state of a driver built around `generator` after the backend answered
/// `probe`: the configuration and device are kept only when both were found.
pub open spec fn constructed<D, G>(generator: G, probe: Probe<D>) -> DriverView<D, G> {
    match probe {
        Probe::Ready(d, s) => DriverView {
            spec: Some(s),
            device: Some(d),
            generator: Some(generator),
            delivering: false,
            err: SoundError::NoError,
        },
        _ => DriverView {
            spec: None,
            device: None,
            generator: Some(generator),
            delivering: false,
            err: probe_error(probe),
        },
    }
}

/// Starting needs the configuration, the device and the generator.
pub open spec fn can_start<D, G>(v: DriverView<D, G>) -> bool {
    v.spec is Some && v.device is Some && v.generator is Some
}

/// What a start hands to the audio callback: everything it needs, or nothing.
pub open spec fn handoff_of<D, G>(v: DriverView<D, G>) -> Option<Handoff<D, G>> {
    if can_start(v) {
        Some(Handoff { device: v.device->0, generator: v.generator->0, spec: v.spec->0 })
    } else {
        None
    }
}

/// The state after a start: the hand-off empties the three slots and opens
/// the event channel; without it nothing changes.
pub open spec fn after_start<D, G>(v: DriverView<D, G>) -> DriverView<D, G> {
    if can_start(v) {
        DriverView { spec: None, device: None, generator: None, delivering: true, err: v.err }
    } else {
        v
    }
}

/// The states a driver can be in: a recorded error leaves nothing to start
/// with, and once the event channel is open the generator is gone.
pub open spec fn well_formed<D, G>(v: DriverView<D, G>) -> bool {
    &&& v.err != SoundError::NoError ==> !can_start(v)
    &&& v.delivering ==> v.generator is None
}

/// The driver plays: the generator was handed off and no failure is recorded.
pub open spec fn running<D, G>(v: DriverView<D, G>) -> bool {
    v.delivering && v.generator is None && v.err == SoundError::NoError
}

impl<D, G> Driver<D, G> {
    /// Builds the driver around `generator` from the backend's answer to the
    /// query for a default output device and its preferred configuration.
    /// Construction never fails: a missing device or an unreadable
    /// configuration is recorded as the error state.
    pub fn new(generator: G, probe: Probe<D>) -> (r: Self)
        ensures
            r@ == constructed(generator, probe),
            well_formed(r@),
    {
        match probe {
            Probe::Ready(d, s) => Driver {
                spec: Some(s),
                device: Some(d),
                generator: Some(generator),
                delivering: false,
                err: SoundError::NoError,
            },
            Probe::NoDevice => Driver {
                spec: None,
                device: None,
                generator: Some(generator),
                delivering: false,
                err: SoundError::NoDevice,
            },
            Probe::ConfigUnreadable => Driver {
                spec: None,
                device: None,
                generator: Some(generator),
                delivering: false,
                err: SoundError::UnknownStreamFormat,
            },
        }
    }

    /// The current error state.
    pub fn get_error(&self) -> (r: SoundError)
        ensures
            r == self@.err,
    {
        self.err
    }

    /// Whether events sent now reach the audio callback; before a start, and
    /// after the stream failed, they are dropped.
    pub fn delivers_events(&self) -> (r: bool)
        ensures
            r == self@.delivering,
    {
        self.delivering
    }

    /// The negotiated configuration, while the driver still holds it.
    pub fn stream_spec(&self) -> (r: Option<StreamSpec>)
        ensures
            r == self@.spec,
    {
        self.spec
    }

    /// Moves the device, the generator and the configuration out of the
    /// driver, once, when all three are present, and opens the event channel.
    /// Otherwise it returns `None` and leaves the driver as it was.
    /// A recorded error is terminal: starting then does nothing.
    pub fn start(&mut self) -> (r: Option<Handoff<D, G>>)
        requires
            well_formed(old(self)@),
        ensures
            r == handoff_of(old(self)@),
            final(self)@ == after_start(old(self)@),
            well_formed(final(self)@),
            old(self)@.err != SoundError::NoError ==> (r is None && final(self)@ == old(self)@),
    {
        if self.spec.is_none() || self.device.is_none() || self.generator.is_none() {
            return None;
        }
        let spec = self.spec.take().unwrap();
        let device = self.device.take().unwrap();
        let generator = self.generator.take().unwrap();
        self.delivering = true;
        Some(Handoff { device, generator, spec })
    }

    /// Records that the backend could not build or play the output stream
    /// for the hand-off of a start; the event channel then has no receiver.
    pub fn stream_failed(&mut self)
        requires
            well_formed(old(self)@),
            old(self)@.delivering,
        ensures
            final(self)@ == (DriverView {
                err: SoundError::OutputStream,
                delivering: false,
                ..old(self)@
            }),
            well_formed(final(self)@),
    {
        self.err = SoundError::OutputStream;
        self.delivering = false;
    }
}

/// A driver built without a usable device or configuration records that
/// failure, and starting it hands nothing off and changes nothing.
pub proof fn lemma_start_without_device_is_inert<D, G>(generator: G, probe: Probe<D>)
    requires
        !(probe is Ready),
    ensures
        well_formed(constructed(generator, probe)),
        constructed(generator, probe).err == probe_error(probe),
        constructed(generator, probe).err != SoundError::NoError,
        probe is NoDevice ==> constructed(generator, probe).err == SoundError::NoDevice,
        handoff_of(constructed(generator, probe)) is None,
        after_start(constructed(generator, probe)) == constructed(generator, probe),
{
}

/// The generator is handed off at most once: after any start, a second start
/// hands nothing off and leaves the state, running or not, as it was.
pub proof fn lemma_second_start_is_noop<D, G>(v: DriverView<D, G>)
    ensures
        handoff_of(after_start(v)) is None,
        after_start(after_start(v)) == after_start(v),
        running(after_start(after_start(v))) == running(after_start(v)),
{
}

/// A recorded error is terminal: a well-formed driver that holds one hands
/// nothing off when started and stays as it is; a driver that can still
/// start has recorded no error, and starting keeps that so.
pub proof fn lemma_recorded_error_is_terminal<D, G>(v: DriverView<D, G>)
    requires
        well_formed(v),
    ensures
        well_formed(after_start(v)),
        v.err != SoundError::NoError ==> handoff_of(v) is None && after_start(v) == v,
        can_start(v) ==> v.err == SoundError::NoError && after_start(v).err == SoundError::NoError,
{
}

/// A driver that negotiated `s` and starts hands off its generator together
/// with the configuration `s`, whose sample rate is the negotiated one, and
/// the driver is then running.
pub proof fn lemma_start_hands_off_negotiated_rate<D, G>(generator: G, device: D, s: StreamSpec)
    ensures
        handoff_of(constructed(generator, Probe::Ready(device, s)))
            == Some(Handoff { device, generator, spec: s }),
        running(after_start(constructed(generator, Probe::Ready(device, s)))),
{
}

} // verus!
