//! Bounded sample queue between the decoder and the audio device, with channel conversion.

use vstd::prelude::*;
use std::collections::VecDeque;
use vstd::arithmetic::div_mod::lemma_fundamental_div_mod_converse;

verus! {

/// Number of visualization bars.
pub const VIS_BARS: usize = 32;

/// Errors that can occur with audio output.
#[derive(Debug, Clone, PartialEq, Eq)]
pub enum OutputError {
    NoDevice,
    StreamConfig(String),
    BuildStream(String),
    PlayStream(String),
}

/// One audio sample value, as moved between the decoder and the device.
pub trait Sample: Copy {
    /// The value of silence.
    spec fn spec_silence() -> Self;

    /// The mono value that a left/right pair mixes down to.
    spec fn spec_mix(left: Self, right: Self) -> Self;

    fn silence() -> (r: Self)
        ensures
            r == Self::spec_silence(),
    ;

    fn mix(left: Self, right: Self) -> (r: Self)
        ensures
            r == Self::spec_mix(left, right),
    ;
}

/// `x / 2` rounded toward zero, as integer division does.
pub open spec fn half_toward_zero(x: int) -> int {
    if x >= 0 {
        x / 2
    } else {
        -((-x) / 2)
    }
}

impl Sample for i16 {
    open spec fn spec_silence() -> i16 {
        0
    }

    open spec fn spec_mix(left: i16, right: i16) -> i16 {
        half_toward_zero(left as int + right as int) as i16
    }

    fn silence() -> (r: i16) {
        0
    }

    fn mix(left: i16, right: i16) -> (r: i16) {
        ((left as i32 + right as i32) / 2) as i16
    }
}

impl Sample for i32 {
    open spec fn spec_silence() -> i32 {
        0
    }

    open spec fn spec_mix(left: i32, right: i32) -> i32 {
        half_toward_zero(left as int + right as int) as i32
    }

    fn silence() -> (r: i32) {
        0
    }

    fn mix(left: i32, right: i32) -> (r: i32) {
        ((left as i64 + right as i64) / 2) as i32
    }
}

/// Abstract state of a sample buffer.
pub ghost struct SampleBufferView<S> {
    /// Queued interleaved samples in source channel layout, oldest first.
    pub samples: Seq<S>,
    pub capacity: nat,
    pub paused: bool,
    pub source_channels: nat,
    pub output_channels: nat,
}

/// Number of frames that a conversion from `sc` to `oc` channels writes into an output
/// of `out_len` samples from `queued` source samples.
pub open spec fn frames_to_convert(out_len: nat, queued: nat, sc: nat, oc: nat) -> nat {
    let out_frames = out_len / oc;
    let src_frames = queued / sc;
    if out_frames < src_frames {
        out_frames
    } else {
        src_frames
    }
}

/// Output sample `i` of a conversion from `sc` to `oc` channels (`sc != oc`) of `src`.
pub open spec fn converted_sample<S: Sample>(src: Seq<S>, sc: nat, oc: nat, i: int) -> S {
    let f = i / oc as int;
    let c = i % oc as int;
    if sc == 1 && oc == 2 {
        src[f]
    } else if sc == 2 && oc == 1 {
        S::spec_mix(src[2 * f], src[2 * f + 1])
    } else if c < sc {
        src[f * sc + c]
    } else {
        src[f * sc + sc - 1]
    }
}

/// A range of stream configurations that the output device supports.
#[derive(Debug, Clone, Copy, PartialEq, Eq, Structural)]
pub struct ConfigRange {
    pub channels: u16,
    pub min_sample_rate: u32,
    pub max_sample_rate: u32,
}

/// Which device configuration to open for a source.
#[derive(Debug, Clone, Copy, PartialEq, Eq, Structural)]
pub enum ConfigChoice {
    /// The range at this index matches both channel count and sample rate.
    Exact(usize),
    /// The range at this index supports the sample rate; channels are converted.
    SameRate(usize),
    /// Nothing supports the rate: the device default is used and playback speed may be wrong.
    DeviceDefault,
}

pub open spec fn supports_rate(c: ConfigRange, rate: u32) -> bool {
    c.min_sample_rate <= rate && rate <= c.max_sample_rate
}

pub open spec fn matches_exactly(c: ConfigRange, rate: u32, channels: u16) -> bool {
    c.channels == channels && supports_rate(c, rate)
}

/// Picks the device configuration for a source: the first exact match, else the first range
/// with the source's sample rate, else the device default.
pub fn choose_output_config(configs: &[ConfigRange], rate: u32, channels: u16) -> (r: ConfigChoice)
    ensures
        match r {
            ConfigChoice::Exact(i) => {
                &&& i < configs@.len()
                &&& matches_exactly(configs@[i as int], rate, channels)
                &&& forall|j: int| 0 <= j < i ==> !matches_exactly(#[trigger] configs@[j], rate, channels)
            },
            ConfigChoice::SameRate(i) => {
                &&& i < configs@.len()
                &&& supports_rate(configs@[i as int], rate)
                &&& forall|j: int| 0 <= j < i ==> !supports_rate(#[trigger] configs@[j], rate)
                &&& forall|j: int|
                    0 <= j < configs@.len() ==> !matches_exactly(#[trigger] configs@[j], rate, channels)
            },
            ConfigChoice::DeviceDefault => forall|j: int|
                0 <= j < configs@.len() ==> !supports_rate(#[trigger] configs@[j], rate),
        },
{
    let mut i: usize = 0;
    while i < configs.len()
        invariant
            i <= configs@.len(),
            forall|j: int| 0 <= j < i ==> !matches_exactly(#[trigger] configs@[j], rate, channels),
        decreases configs@.len() - i,
    {
        let c = configs[i];
        if c.channels == channels && c.min_sample_rate <= rate && rate <= c.max_sample_rate {
            return ConfigChoice::Exact(i);
        }
        i += 1;
    }
    let mut k: usize = 0;
    while k < configs.len()
        invariant
            k <= configs@.len(),
            forall|j: int| 0 <= j < k ==> !supports_rate(#[trigger] configs@[j], rate),
            forall|j: int|
                0 <= j < configs@.len() ==> !matches_exactly(#[trigger] configs@[j], rate, channels),
        decreases configs@.len() - k,
    {
        let c = configs[k];
        if c.min_sample_rate <= rate && rate <= c.max_sample_rate {
            return ConfigChoice::SameRate(k);
        }
        k += 1;
    }
    ConfigChoice::DeviceDefault
}

/// Capacity of the sample buffer for a source: half a second of audio, in samples.
pub fn buffer_capacity(sample_rate: u32, channels: u16) -> (r: usize)
    ensures
        r == if sample_rate as int * channels as int / 2 <= usize::MAX {
            sample_rate as int * channels as int / 2
        } else {
            usize::MAX as int
        },
{
    assert(sample_rate as u64 * channels as u64 <= u64::MAX) by (nonlinear_arith)
        requires
            sample_rate <= u32::MAX,
            channels <= u16::MAX,
    ;
    let total = (sample_rate as u64) * (channels as u64) / 2;
    if total <= usize::MAX as u64 {
        total as usize
    } else {
        usize::MAX
    }
}

/// Fixed-capacity queue of interleaved samples with a paused flag. Reading converts the
/// source channel layout to the output layout.
pub struct SampleBuffer<S> {
    buffer: VecDeque<S>,
    capacity: usize,
    paused: bool,
    source_channels: u16,
    output_channels: u16,
}

impl<S> View for SampleBuffer<S> {
    type V = SampleBufferView<S>;

    closed spec fn view(&self) -> SampleBufferView<S> {
        SampleBufferView {
            samples: self.buffer@,
            capacity: self.capacity as nat,
            paused: self.paused,
            source_channels: self.source_channels as nat,
            output_channels: self.output_channels as nat,
        }
    }
}

impl<S: Sample> SampleBuffer<S> {
    pub open spec fn wf(&self) -> bool {
        &&& self@.samples.len() <= self@.capacity
        &&& self@.source_channels > 0
        &&& self@.output_channels > 0
    }

    /// Creates an empty, unpaused buffer holding at most `capacity` samples.
    pub fn new(capacity: usize, source_channels: u16, output_channels: u16) -> (r: Self)
        requires
            source_channels > 0,
            output_channels > 0,
        ensures
            r.wf(),
            r@.samples.len() == 0,
            r@.capacity == capacity,
            !r@.paused,
            r@.source_channels == source_channels,
            r@.output_channels == output_channels,
    {
        SampleBuffer {
            buffer: VecDeque::new(),
            capacity,
            paused: false,
            source_channels,
            output_channels,
        }
    }

    /// Appends as many of `samples` as fit; returns how many were taken. The rest is dropped
    /// and is the caller's to push again.
    pub fn push(&mut self, samples: &[S]) -> (pushed: usize)
        requires
            old(self).wf(),
        ensures
            final(self).wf(),
            pushed == if samples@.len() <= old(self)@.capacity - old(self)@.samples.len() {
                samples@.len() as int
            } else {
                old(self)@.capacity - old(self)@.samples.len()
            },
            final(self)@ == (SampleBufferView {
                samples: old(self)@.samples + samples@.take(pushed as int),
                ..old(self)@
            }),
    {
        let available = self.capacity - self.buffer.len();
        let to_push = if samples.len() <= available {
            samples.len()
        } else {
            available
        };
        let ghost start = self.buffer@;
        let mut i: usize = 0;
        while i < to_push
            invariant
                i <= to_push <= samples@.len(),
                to_push <= available,
                available == self.capacity - start.len(),
                self.buffer@ == start + samples@.take(i as int),
                self.capacity == old(self).capacity,
                self.paused == old(self).paused,
                self.source_channels == old(self).source_channels,
                self.output_channels == old(self).output_channels,
            decreases to_push - i,
        {
            self.buffer.push_back(samples[i]);
            i += 1;
            proof {
                assert(samples@.take(i as int) =~= samples@.take(i - 1).push(samples@[i - 1]));
            }
        }
        to_push
    }

    /// Drops the `count` oldest samples.
    fn discard_front(&mut self, count: usize)
        requires
            count <= old(self)@.samples.len(),
        ensures
            final(self)@ == (SampleBufferView {
                samples: old(self)@.samples.skip(count as int),
                ..old(self)@
            }),
    {
        let mut k: usize = 0;
        proof {
            assert(old(self)@.samples.skip(0) =~= old(self)@.samples);
        }
        while k < count
            invariant
                k <= count <= old(self)@.samples.len(),
                self@ == (SampleBufferView {
                    samples: old(self)@.samples.skip(k as int),
                    ..old(self)@
                }),
            decreases count - k,
        {
            let _ = self.buffer.pop_front();
            k += 1;
            proof {
                assert(old(self)@.samples.skip(k as int) =~= old(self)@.samples.skip(k - 1).subrange(
                    1,
                    old(self)@.samples.skip(k - 1).len() as int,
                ));
            }
        }
    }

    /// Fills `output` with queued samples converted to the output channel layout, and the
    /// rest with silence. Returns the number of output samples written from the queue.
    /// While paused, writes silence only and returns 0.
    pub fn pop(&mut self, output: &mut [S]) -> (written: usize)
        requires
            old(self).wf(),
        ensures
            final(self).wf(),
            final(output)@.len() == old(output)@.len(),
            written <= old(output)@.len(),
            forall|i: int|
                written <= i < old(output)@.len() ==> #[trigger] final(output)@[i]
                    == S::spec_silence(),
            old(self)@.paused ==> written == 0 && final(self)@ == old(self)@,
            !old(self)@.paused && old(self)@.samples.len() == 0 ==> written == 0 && final(self)@
                == old(self)@,
            !old(self)@.paused && old(self)@.source_channels == old(self)@.output_channels ==> {
                &&& written == if old(output)@.len() <= old(self)@.samples.len() {
                    old(output)@.len()
                } else {
                    old(self)@.samples.len()
                }
                &&& forall|i: int|
                    0 <= i < written ==> #[trigger] final(output)@[i] == old(self)@.samples[i]
                &&& final(self)@ == (SampleBufferView {
                    samples: old(self)@.samples.skip(written as int),
                    ..old(self)@
                })
            },
            !old(self)@.paused && old(self)@.source_channels != old(self)@.output_channels ==> {
                let sc = old(self)@.source_channels;
                let oc = old(self)@.output_channels;
                let frames = frames_to_convert(
                    old(output)@.len(),
                    old(self)@.samples.len(),
                    sc,
                    oc,
                );
                &&& written == frames * oc
                &&& forall|i: int|
                    0 <= i < written ==> #[trigger] final(output)@[i] == converted_sample(
                        old(self)@.samples,
                        sc,
                        oc,
                        i,
                    )
                &&& final(self)@ == (SampleBufferView {
                    samples: old(self)@.samples.skip((frames * sc) as int),
                    ..old(self)@
                })
            },
            // mono to stereo: each source sample lands on both channels of its frame
            !old(self)@.paused && old(self)@.source_channels == 1 && old(self)@.output_channels
                == 2 ==> forall|k: int|
                0 <= k < written / 2 ==> final(output)@[2 * k] == old(self)@.samples[k]
                    && final(output)@[2 * k + 1] == old(self)@.samples[k],
    {
        let silence = S::silence();
        if self.paused {
            let mut i: usize = 0;
            while i < output.len()
                invariant
                    i <= output@.len() == old(output)@.len(),
                    silence == S::spec_silence(),
                    forall|j: int| 0 <= j < i ==> #[trigger] output@[j] == S::spec_silence(),
                decreases output@.len() - i,
            {
                output[i] = silence;
                i += 1;
            }
            return 0;
        }
        let src_ch = self.source_channels as usize;
        let out_ch = self.output_channels as usize;
        let queued = self.buffer.len();
        let ghost src = self.buffer@;
        let written: usize;
        let consumed: usize;
        if src_ch == out_ch {
            written = if output.len() <= queued {
                output.len()
            } else {
                queued
            };
            consumed = written;
            let mut i: usize = 0;
            while i < written
                invariant
                    i <= written <= output@.len(),
                    written <= queued == src.len(),
                    src == self.buffer@,
                    output@.len() == old(output)@.len(),
                    forall|j: int| 0 <= j < i ==> #[trigger] output@[j] == src[j],
                decreases written - i,
            {
                output[i] = self.buffer[i];
                i += 1;
            }
        } else {
            let out_frames = output.len() / out_ch;
            let src_frames = queued / src_ch;
            let frames = if out_frames < src_frames {
                out_frames
            } else {
                src_frames
            };
            proof {
                assert(frames * out_ch <= output.len()) by (nonlinear_arith)
                    requires
                        frames <= out_frames,
                        out_frames == output.len() / out_ch,
                        out_ch > 0,
                ;
                assert(frames * src_ch <= queued) by (nonlinear_arith)
                    requires
                        frames <= src_frames,
                        src_frames == queued / src_ch,
                        src_ch > 0,
                ;
            }
            proof {
                if queued == 0 {
                    assert(src_frames == 0) by (nonlinear_arith)
                        requires
                            src_frames == queued / src_ch,
                            queued == 0,
                            src_ch > 0,
                    ;
                }
            }
            written = frames * out_ch;
            consumed = frames * src_ch;
            proof {
                assert(0 * out_ch == 0) by (nonlinear_arith);
                if frames == 0 {
                    assert(frames * out_ch == 0 && frames * src_ch == 0) by (nonlinear_arith)
                        requires
                            frames == 0,
                    ;
                }
            }
            let mut i: usize = 0;
            let mut f: usize = 0;
            let mut c: usize = 0;
            while i < written
                invariant
                    i <= written == frames * out_ch <= output@.len(),
                    consumed == frames * src_ch <= queued == src.len(),
                    src == self.buffer@,
                    src_ch == self@.source_channels,
                    out_ch == self@.output_channels,
                    src_ch > 0,
                    out_ch > 0,
                    src_ch != out_ch,
                    c < out_ch,
                    i == f * out_ch + c,
                    output@.len() == old(output)@.len(),
                    forall|j: int|
                        0 <= j < i ==> #[trigger] output@[j] == converted_sample(
                            src,
                            src_ch as nat,
                            out_ch as nat,
                            j,
                        ),
                decreases written - i,
            {
                proof {
                    lemma_fundamental_div_mod_converse(i as int, out_ch as int, f as int, c as int);
                    assert(f < frames) by (nonlinear_arith)
                        requires
                            i == f * out_ch + c,
                            i < frames * out_ch,
                            c >= 0,
                    ;
                    assert((f + 1) * src_ch <= frames * src_ch) by (nonlinear_arith)
                        requires
                            f < frames,
                            src_ch > 0,
                    ;
                    assert((f + 1) * src_ch == f * src_ch + src_ch) by (nonlinear_arith);
                    if src_ch == 2 {
                        assert(2 * f + 2 <= queued) by (nonlinear_arith)
                            requires
                                (f + 1) * src_ch <= queued,
                                src_ch == 2,
                        ;
                    }
                    if src_ch == 1 {
                        assert(f + 1 <= queued) by (nonlinear_arith)
                            requires
                                (f + 1) * src_ch <= queued,
                                src_ch == 1,
                        ;
                    }
                }
                let sample = if src_ch == 1 && out_ch == 2 {
                    self.buffer[f]
                } else if src_ch == 2 && out_ch == 1 {
                    S::mix(self.buffer[2 * f], self.buffer[2 * f + 1])
                } else if c < src_ch {
                    self.buffer[f * src_ch + c]
                } else {
                    self.buffer[f * src_ch + src_ch - 1]
                };
                output[i] = sample;
                let ghost (f0, c0) = (f, c);
                i += 1;
                if c + 1 < out_ch {
                    c += 1;
                } else {
                    c = 0;
                    f += 1;
                }
                proof {
                    if c == 0 {
                        assert(f * out_ch == f0 * out_ch + out_ch) by (nonlinear_arith)
                            requires
                                f == f0 + 1,
                        ;
                    }
                }
            }
        }
        proof {
            if !self.paused && src_ch == 1 && out_ch == 2 {
                assert forall|k: int| 0 <= k < written / 2 implies output@[2 * k] == src[k]
                    && output@[2 * k + 1] == src[k] by {
                    assert((2 * k) / 2 == k && (2 * k) % 2 == 0);
                    assert((2 * k + 1) / 2 == k && (2 * k + 1) % 2 == 1);
                    assert(2 * k + 1 < written);
                }
            }
        }
        let ghost before = output@;
        let mut k: usize = written;
        while k < output.len()
            invariant
                written <= k <= output@.len() == old(output)@.len(),
                before.len() == output@.len(),
                silence == S::spec_silence(),
                forall|j: int| written <= j < k ==> #[trigger] output@[j] == S::spec_silence(),
                forall|j: int| 0 <= j < written ==> #[trigger] output@[j] == before[j],
            decreases output@.len() - k,
        {
            output[k] = silence;
            k += 1;
        }
        self.discard_front(consumed);
        proof {
            assert(src.skip(0) =~= src);
        }
        written
    }
    /// Returns the number of samples currently queued.
    pub fn len(&self) -> (r: usize)
        ensures
            r == self@.samples.len(),
    {
        self.buffer.len()
    }

    /// Returns true if no sample is queued.
    pub fn is_empty(&self) -> (r: bool)
        ensures
            r == (self@.samples.len() == 0),
    {
        self.buffer.len() == 0
    }

    /// Drops every queued sample.
    pub fn clear(&mut self)
        requires
            old(self).wf(),
        ensures
            final(self).wf(),
            final(self)@ == (SampleBufferView { samples: Seq::<S>::empty(), ..old(self)@ }),
    {
        self.buffer.clear();
    }

    /// Sets the paused flag.
    pub fn set_paused(&mut self, paused: bool)
        requires
            old(self).wf(),
        ensures
            final(self).wf(),
            final(self)@ == (SampleBufferView { paused, ..old(self)@ }),
    {
        self.paused = paused;
    }

    /// Gets the paused flag.
    pub fn is_paused(&self) -> (r: bool)
        ensures
            r == self@.paused,
    {
        self.paused
    }

    /// Number of channels of the queued samples.
    pub fn source_channels(&self) -> (r: u16)
        ensures
            r == self@.source_channels,
    {
        self.source_channels
    }

    /// Number of channels written by `pop`.
    pub fn output_channels(&self) -> (r: u16)
        ensures
            r == self@.output_channels,
    {
        self.output_channels
    }
}

} // verus!
