use wavetable::oscillator::{WavetableOscillator, CHANNELS};

fn silence(len: usize) -> Vec<f32> {
    vec![0.0; len]
}

#[test]
fn the_stream_has_one_channel() {
    let oscillator = WavetableOscillator::new(44100, silence(64)).unwrap();
    assert_eq!(oscillator.channels(), 1);
    assert_eq!(CHANNELS, 1);
}

#[test]
fn the_stream_has_the_rate_given_at_construction() {
    let oscillator = WavetableOscillator::new(44100, silence(64)).unwrap();
    assert_eq!(oscillator.sample_rate(), 44100);
    let other = WavetableOscillator::new(u32::MAX, silence(4)).unwrap();
    assert_eq!(other.sample_rate(), u32::MAX);
}

#[test]
fn the_stream_has_no_frame_boundary() {
    let oscillator = WavetableOscillator::new(44100, silence(64)).unwrap();
    assert_eq!(oscillator.current_frame_len(), None);
}

#[test]
fn the_stream_has_no_known_duration() {
    let oscillator = WavetableOscillator::new(44100, silence(64)).unwrap();
    assert_eq!(oscillator.total_duration(), None);
}
