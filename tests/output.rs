use oxidio::output::{buffer_capacity, choose_output_config, ConfigChoice, ConfigRange, SampleBuffer, VIS_BARS};

#[test]
fn push_beyond_capacity_accepts_what_fits() {
    let mut b: SampleBuffer<i16> = SampleBuffer::new(100, 2, 2);
    let samples: Vec<i16> = (0..150).map(|i| i as i16).collect();
    assert_eq!(b.push(&samples), 100);
    assert_eq!(b.len(), 100);
    assert_eq!(b.push(&samples[100..]), 0);
    let mut out = vec![0i16; 10];
    assert_eq!(b.pop(&mut out), 10);
    assert_eq!(b.push(&samples[100..]), 10);
    assert_eq!(b.len(), 100);
}

#[test]
fn pop_on_empty_buffer_writes_silence() {
    let mut b: SampleBuffer<i16> = SampleBuffer::new(64, 1, 2);
    let mut out = vec![7i16; 16];
    assert_eq!(b.pop(&mut out), 0);
    assert!(out.iter().all(|&x| x == 0));
    assert!(b.is_empty());
}

#[test]
fn pop_while_paused_writes_silence_and_keeps_samples() {
    let mut b: SampleBuffer<i32> = SampleBuffer::new(64, 2, 2);
    b.push(&[1, 2, 3, 4]);
    b.set_paused(true);
    assert!(b.is_paused());
    let mut out = vec![9i32; 4];
    assert_eq!(b.pop(&mut out), 0);
    assert_eq!(out, vec![0, 0, 0, 0]);
    assert_eq!(b.len(), 4);
    b.set_paused(false);
    assert_eq!(b.pop(&mut out), 4);
    assert_eq!(out, vec![1, 2, 3, 4]);
}

#[test]
fn mono_to_stereo_duplicates_each_sample() {
    let mut b: SampleBuffer<i16> = SampleBuffer::new(64, 1, 2);
    b.push(&[10, -20, 30]);
    let mut out = vec![1i16; 6];
    assert_eq!(b.pop(&mut out), 6);
    assert_eq!(out, vec![10, 10, -20, -20, 30, 30]);
    assert!(b.is_empty());
}

#[test]
fn stereo_to_mono_averages_pairs() {
    let mut b: SampleBuffer<i16> = SampleBuffer::new(64, 2, 1);
    b.push(&[10, 20, -5, -6, 100, 0]);
    let mut out = vec![1i16; 4];
    assert_eq!(b.pop(&mut out), 3);
    assert_eq!(out, vec![15, -5, 50, 0]);
}

#[test]
fn identity_layout_copies_and_fills_tail() {
    let mut b: SampleBuffer<i16> = SampleBuffer::new(64, 2, 2);
    b.push(&[1, 2, 3]);
    let mut out = vec![5i16; 5];
    assert_eq!(b.pop(&mut out), 3);
    assert_eq!(out, vec![1, 2, 3, 0, 0]);
}

#[test]
fn general_remix_truncates_and_duplicates_channels() {
    let mut up: SampleBuffer<i16> = SampleBuffer::new(64, 2, 4);
    up.push(&[1, 2, 3, 4]);
    let mut out = vec![9i16; 8];
    assert_eq!(up.pop(&mut out), 8);
    assert_eq!(out, vec![1, 2, 2, 2, 3, 4, 4, 4]);

    let mut down: SampleBuffer<i16> = SampleBuffer::new(64, 3, 2);
    down.push(&[1, 2, 3, 4, 5, 6, 7]);
    let mut out = vec![9i16; 6];
    assert_eq!(down.pop(&mut out), 4);
    assert_eq!(out, vec![1, 2, 4, 5, 0, 0]);
    assert_eq!(down.len(), 1);
}

#[test]
fn clear_empties_the_buffer() {
    let mut b: SampleBuffer<i16> = SampleBuffer::new(8, 1, 1);
    b.push(&[1, 2, 3]);
    b.clear();
    assert_eq!(b.len(), 0);
    assert_eq!(b.source_channels(), 1);
    assert_eq!(b.output_channels(), 1);
    assert_eq!(VIS_BARS, 32);
}

#[test]
fn device_config_preference() {
    let configs = [
        ConfigRange { channels: 2, min_sample_rate: 8000, max_sample_rate: 48000 },
        ConfigRange { channels: 1, min_sample_rate: 8000, max_sample_rate: 96000 },
        ConfigRange { channels: 1, min_sample_rate: 44100, max_sample_rate: 44100 },
    ];
    assert_eq!(choose_output_config(&configs, 44100, 1), ConfigChoice::Exact(1));
    assert_eq!(choose_output_config(&configs, 44100, 6), ConfigChoice::SameRate(0));
    assert_eq!(choose_output_config(&configs, 96000, 2), ConfigChoice::SameRate(1));
    assert_eq!(choose_output_config(&configs, 192000, 2), ConfigChoice::DeviceDefault);
}

#[test]
fn half_second_buffer_capacity() {
    assert_eq!(buffer_capacity(44100, 2), 44100);
    assert_eq!(buffer_capacity(48000, 1), 24000);
}

/// A sample type of the caller's own: integer millivolts.
#[derive(Debug, Clone, Copy, PartialEq)]
struct Milli(i64);

impl oxidio::output::Sample for Milli {
    fn spec_silence() -> Self {
        Milli(0)
    }

    fn spec_mix(left: Self, right: Self) -> Self {
        Milli((left.0 + right.0) / 2)
    }

    fn silence() -> Self {
        Milli(0)
    }

    fn mix(left: Self, right: Self) -> Self {
        Milli((left.0 + right.0) / 2)
    }
}

#[test]
fn buffer_works_with_a_callers_sample_type() {
    let mut b: SampleBuffer<Milli> = SampleBuffer::new(8, 2, 1);
    assert_eq!(b.push(&[Milli(4), Milli(8), Milli(-2), Milli(-4)]), 4);
    let mut out = vec![Milli(9); 3];
    assert_eq!(b.pop(&mut out), 2);
    assert_eq!(out, vec![Milli(6), Milli(-3), Milli(0)]);
}
