use uni_snd::{Driver, Probe, SampleFormat, SoundError, StreamSpec};

fn spec(rate: u32, format: SampleFormat) -> StreamSpec {
    StreamSpec { sample_rate: rate, channels: 2, format }
}

#[test]
fn ready_probe_configures_driver() {
    let d: Driver<&str, u8> = Driver::new(7u8, Probe::Ready("speakers", spec(48000, SampleFormat::F32)));
    assert_eq!(d.get_error(), SoundError::NoError);
    assert_eq!(d.stream_spec(), Some(spec(48000, SampleFormat::F32)));
    assert!(!d.delivers_events());
}

#[test]
fn no_device_is_recorded_and_start_is_inert() {
    let mut d: Driver<&str, u8> = Driver::new(7u8, Probe::NoDevice);
    assert_eq!(d.get_error(), SoundError::NoDevice);
    assert!(d.start().is_none());
    assert_eq!(d.get_error(), SoundError::NoDevice);
    assert!(!d.delivers_events());
    assert_eq!(d.stream_spec(), None);
}

#[test]
fn unreadable_config_is_unknown_format() {
    let mut d: Driver<&str, u8> = Driver::new(7u8, Probe::ConfigUnreadable);
    assert_eq!(d.get_error(), SoundError::UnknownStreamFormat);
    assert_eq!(d.stream_spec(), None);
    assert!(d.start().is_none());
    assert_eq!(d.get_error(), SoundError::UnknownStreamFormat);
}

#[test]
fn start_hands_off_once() {
    let mut d: Driver<&str, u8> = Driver::new(9u8, Probe::Ready("dac", spec(44100, SampleFormat::I16)));
    let h = d.start().expect("first start hands off");
    assert_eq!(h.device, "dac");
    assert_eq!(h.generator, 9u8);
    assert_eq!(h.spec, spec(44100, SampleFormat::I16));
    assert!(d.delivers_events());
    assert_eq!(d.stream_spec(), None);
    assert!(d.start().is_none());
    assert!(d.delivers_events());
    assert_eq!(d.get_error(), SoundError::NoError);
}

#[test]
fn handoff_carries_negotiated_rate() {
    let mut d: Driver<u32, u8> = Driver::new(1u8, Probe::Ready(3u32, spec(22050, SampleFormat::U16)));
    let h = d.start().unwrap();
    assert_eq!(h.sample_rate(), 22050);
    assert_eq!(h.spec.format, SampleFormat::U16);
}

#[test]
fn stream_failure_is_recorded() {
    let mut d: Driver<u32, u8> = Driver::new(1u8, Probe::Ready(3u32, spec(48000, SampleFormat::F32)));
    assert!(d.start().is_some());
    assert!(d.delivers_events());
    d.stream_failed();
    assert_eq!(d.get_error(), SoundError::OutputStream);
    assert!(!d.delivers_events());
    assert!(d.start().is_none());
    assert_eq!(d.get_error(), SoundError::OutputStream);
}
