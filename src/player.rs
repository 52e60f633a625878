//! Playback control: the engine's state machine, the decode loop's decisions, and the
//! sample layout conversions around the resampler.

use vstd::prelude::*;

verus! {

/// Errors that can occur during playback.
#[derive(Debug, Clone, PartialEq, Eq)]
pub enum PlayerError {
    FileOpen(String),
    Decode(String),
    Output(String),
    NoTrack,
}

/// Current playback state.
#[derive(Debug, Clone, Copy, PartialEq, Eq, Structural)]
pub enum PlaybackState {
    Stopped,
    Playing,
    Paused,
}

/// Events emitted by the player for UI updates.
#[derive(Debug, Clone, PartialEq, Eq)]
pub enum PlayerEvent {
    TrackChanged { path: String },
    StateChanged { state: PlaybackState },
    PositionChanged { position_ms: u64, duration_ms: u64 },
    TrackEnded,
    Error { message: String },
}

/// Planar sample `i` of the interleaved result of `channels`.
pub open spec fn interleaved_at<T>(channels: Seq<Vec<T>>, i: int) -> T {
    channels[i % channels.len() as int]@[i / channels.len() as int]
}

/// Converts planar samples to interleaved order: `[[L0, L1], [R0, R1]]` becomes
/// `[L0, R0, L1, R1]`. Empty when there is no channel or the first one is empty.
pub fn interleave<T: Copy>(channels: &[Vec<T>]) -> (out: Vec<T>)
    requires
        forall|c: int|
            0 <= c < channels@.len() ==> #[trigger] channels@[c]@.len() == channels@[0]@.len(),
        channels@.len() > 0 ==> channels@[0]@.len() * channels@.len() <= usize::MAX,
    ensures
        channels@.len() == 0 ==> out@.len() == 0,
        channels@.len() > 0 ==> {
            &&& out@.len() == channels@[0]@.len() * channels@.len()
            &&& forall|i: int| 0 <= i < out@.len() ==> #[trigger] out@[i] == interleaved_at(channels@, i)
        },
{
    if channels.len() == 0 || channels[0].len() == 0 {
        proof {
            if channels@.len() > 0 {
                assert(0 * channels@.len() == 0) by (nonlinear_arith);
            }
        }
        return Vec::new();
    }
    let frames = channels[0].len();
    let num_ch = channels.len();
    let mut out: Vec<T> = Vec::new();
    let mut f: usize = 0;
    proof {
        assert(0 * num_ch == 0) by (nonlinear_arith);
    }
    while f < frames
        invariant
            f <= frames == channels@[0]@.len(),
            num_ch == channels@.len() > 0,
            frames * num_ch <= usize::MAX,
            forall|c: int| 0 <= c < num_ch ==> #[trigger] channels@[c]@.len() == frames,
            out@.len() == f * num_ch,
            forall|i: int| 0 <= i < out@.len() ==> #[trigger] out@[i] == interleaved_at(channels@, i),
        decreases frames - f,
    {
        let mut c: usize = 0;
        proof {
            assert(f * num_ch + num_ch <= frames * num_ch) by (nonlinear_arith)
                requires
                    f < frames,
            ;
        }
        while c < num_ch
            invariant
                f < frames == channels@[0]@.len(),
                c <= num_ch == channels@.len(),
                f * num_ch + num_ch <= frames * num_ch <= usize::MAX,
                forall|k: int| 0 <= k < num_ch ==> #[trigger] channels@[k]@.len() == frames,
                out@.len() == f * num_ch + c,
                forall|i: int|
                    0 <= i < out@.len() ==> #[trigger] out@[i] == interleaved_at(channels@, i),
            decreases num_ch - c,
        {
            proof {
                vstd::arithmetic::div_mod::lemma_fundamental_div_mod_converse(
                    (f * num_ch + c) as int,
                    num_ch as int,
                    f as int,
                    c as int,
                );
            }
            out.push(channels[c][f]);
            c += 1;
        }
        f += 1;
        proof {
            assert(f * num_ch == (f - 1) * num_ch + num_ch) by (nonlinear_arith);
        }
    }
    out
}

/// Interleaved sample `k * channels + c` of `samples`, the `k`-th sample of channel `c`.
pub open spec fn planar_at<T>(samples: Seq<T>, channels: nat, c: int, k: int) -> T {
    samples[k * channels + c]
}

/// Number of samples of channel `c` in `len` interleaved samples (the last frame may be partial).
pub open spec fn channel_len(len: nat, channels: nat, c: nat) -> nat {
    if c < len {
        ((len - c - 1) / channels as int + 1) as nat
    } else {
        0
    }
}

/// Splits interleaved samples into one vector per channel; a partial last frame
/// contributes to its first channels only.
pub fn split_channels<T: Copy>(samples: &[T], channels: usize) -> (planar: Vec<Vec<T>>)
    requires
        channels > 0,
    ensures
        planar@.len() == channels,
        forall|c: int|
            0 <= c < channels ==> #[trigger] planar@[c]@.len() == channel_len(
                samples@.len(),
                channels as nat,
                c as nat,
            ),
        forall|c: int, k: int|
            0 <= c < channels && 0 <= k < planar@[c]@.len() ==> #[trigger] planar@[c]@[k]
                == planar_at(samples@, channels as nat, c, k),
{
    let mut planar: Vec<Vec<T>> = Vec::new();
    let mut c: usize = 0;
    while c < channels
        invariant
            c <= channels,
            planar@.len() == c,
            forall|j: int|
                0 <= j < c ==> #[trigger] planar@[j]@.len() == channel_len(
                    samples@.len(),
                    channels as nat,
                    j as nat,
                ),
            forall|j: int, k: int|
                0 <= j < c && 0 <= k < planar@[j]@.len() ==> #[trigger] planar@[j]@[k]
                    == planar_at(samples@, channels as nat, j, k),
        decreases channels - c,
    {
        let mut column: Vec<T> = Vec::new();
        let mut i: usize = c;
        let mut k: usize = 0;
        proof {
            assert(0 * channels == 0) by (nonlinear_arith);
        }
        while i < samples.len()
            invariant
                c < channels,
                k <= i,
                i < samples@.len() ==> i == k * channels + c,
                i >= samples@.len() ==> k == channel_len(
                    samples@.len(),
                    channels as nat,
                    c as nat,
                ),
                column@.len() == k,
                forall|m: int|
                    0 <= m < k ==> #[trigger] column@[m] == planar_at(
                        samples@,
                        channels as nat,
                        c as int,
                        m,
                    ),
            decreases samples@.len() - i,
        {
            column.push(samples[i]);
            if samples.len() - i <= channels {
                proof {
                    assert((k + 1) * channels == k * channels + channels) by (nonlinear_arith);
                    lemma_channel_count_last(samples@.len(), channels as nat, c as nat, k as nat);
                }
                i = samples.len();
            } else {
                i = i + channels;
                proof {
                    assert(i == (k + 1) * channels + c) by (nonlinear_arith)
                        requires
                            i == k * channels + c + channels,
                    ;
                }
            }
            k += 1;
        }
        planar.push(column);
        c += 1;
    }
    planar
}

/// When frame `k` of channel `c` is present and the next one is not, `k + 1` frames exist.
proof fn lemma_channel_count_last(len: nat, channels: nat, c: nat, k: nat)
    requires
        channels > 0,
        k * channels + c < len,
        (k + 1) * channels + c >= len,
    ensures
        k + 1 == channel_len(len, channels, c),
{
    assert((len - c - 1) / channels as int == k) by (nonlinear_arith)
        requires
            k * channels + c < len,
            (k + 1) * channels + c >= len,
            channels > 0,
    ;
}

/// What the decode loop does next.
#[derive(Debug, Clone, Copy, PartialEq, Eq, Structural)]
pub enum DecodeStep {
    /// Stop was requested: leave the loop.
    Exit,
    /// The buffer is paused: sleep briefly and look again.
    WaitPaused,
    /// Enough is buffered already: sleep briefly and look again.
    WaitBackpressure,
    /// Decode the next chunk.
    Decode,
}

/// Decides the decode loop's next step from the stop flag, the paused flag and how many
/// samples are buffered.
pub fn decode_step(stop_requested: bool, paused: bool, buffered: usize, threshold: usize) -> (r:
    DecodeStep)
    ensures
        r == if stop_requested {
            DecodeStep::Exit
        } else if paused {
            DecodeStep::WaitPaused
        } else if buffered > threshold {
            DecodeStep::WaitBackpressure
        } else {
            DecodeStep::Decode
        },
{
    if stop_requested {
        DecodeStep::Exit
    } else if paused {
        DecodeStep::WaitPaused
    } else if buffered > threshold {
        DecodeStep::WaitBackpressure
    } else {
        DecodeStep::Decode
    }
}

/// Buffer level above which the decoder waits: about 50 ms of audio, in samples.
pub fn backpressure_threshold(sample_rate: u32, channels: usize) -> (r: usize)
    ensures
        r == if sample_rate as int * channels as int / 20 <= usize::MAX {
            sample_rate as int * channels as int / 20
        } else {
            usize::MAX as int
        },
{
    assert(sample_rate as u128 * channels as u128 <= u128::MAX) by (nonlinear_arith)
        requires
            sample_rate <= u32::MAX,
            channels <= usize::MAX,
            usize::MAX <= u64::MAX,
    ;
    let total = (sample_rate as u128) * (channels as u128) / 20;
    if total <= usize::MAX as u128 {
        total as usize
    } else {
        usize::MAX
    }
}

/// What a call to decode the next chunk gave.
#[derive(Debug, Clone, Copy, PartialEq, Eq, Structural)]
pub enum DecodeOutcome {
    /// A chunk of samples.
    Chunk,
    /// The end of the stream.
    EndOfStream,
    /// A decode error that cannot be skipped.
    Failed,
}

/// What the decode loop does with an outcome.
#[derive(Debug, Clone, Copy, PartialEq, Eq, Structural)]
pub enum OutcomeAction {
    /// Count the chunk's frames, resample if needed, push the result and go on.
    PushChunk,
    /// Flush the resampler, wait for the buffer to drain, mark the track ended, stop.
    DrainAndFinish,
    /// Leave the loop without marking the track ended.
    Exit,
}

/// The decode loop's step for an outcome: push chunks, finish at the end of the stream,
/// leave on an error (without retrying).
pub fn after_decode(outcome: DecodeOutcome) -> (r: OutcomeAction)
    ensures
        r == match outcome {
            DecodeOutcome::Chunk => OutcomeAction::PushChunk,
            DecodeOutcome::EndOfStream => OutcomeAction::DrainAndFinish,
            DecodeOutcome::Failed => OutcomeAction::Exit,
        },
{
    match outcome {
        DecodeOutcome::Chunk => OutcomeAction::PushChunk,
        DecodeOutcome::EndOfStream => OutcomeAction::DrainAndFinish,
        DecodeOutcome::Failed => OutcomeAction::Exit,
    }
}

/// Source frames in a chunk of `samples` interleaved samples of `channels` channels.
pub fn chunk_frames(samples: usize, channels: usize) -> (r: u64)
    requires
        channels > 0,
    ensures
        r == samples / channels,
{
    (samples / channels) as u64
}

/// Whether pushing a chunk goes on: samples remain from `offset` of `total` and no stop was
/// requested (a full buffer makes the caller wait briefly and ask again).
pub fn keep_pushing(offset: usize, total: usize, stop_requested: bool) -> (r: bool)
    ensures
        r == (offset < total && !stop_requested),
{
    offset < total && !stop_requested
}

/// After end of stream: keep waiting while samples remain and no stop was requested.
pub fn keep_draining(buffer_empty: bool, stop_requested: bool) -> (r: bool)
    ensures
        r == (!buffer_empty && !stop_requested),
{
    !buffer_empty && !stop_requested
}

/// Frame at which playback resumes after a seek to `position_ms`.
pub fn seek_start_frame(position_ms: u64, sample_rate: u32) -> (r: u64)
    ensures
        r == if position_ms as int * sample_rate as int / 1000 <= u64::MAX {
            position_ms as int * sample_rate as int / 1000
        } else {
            u64::MAX as int
        },
{
    assert(position_ms as u128 * sample_rate as u128 <= u128::MAX) by (nonlinear_arith)
        requires
            sample_rate <= u32::MAX,
            position_ms <= u64::MAX,
    ;
    let frames = (position_ms as u128) * (sample_rate as u128) / 1000;
    if frames <= u64::MAX as u128 {
        frames as u64
    } else {
        u64::MAX
    }
}

/// Bookkeeping of the one playback session an engine may have.
#[derive(Debug, Clone, Copy, PartialEq, Eq, Structural)]
pub struct Session {
    /// Sample rate of the source, in Hz.
    pub sample_rate: u32,
    /// Source frames handed to the buffer so far (counted from the track's start).
    pub frames_played: u64,
    /// Total length of the track in milliseconds, when known.
    pub duration_ms: Option<u64>,
    /// The decoder reached the end of the stream and the buffer drained.
    pub track_ended: bool,
}

/// Abstract state of the engine's control record.
pub ghost struct ControlView {
    pub state: PlaybackState,
    pub current_track: Option<String>,
    pub session: Option<Session>,
}

/// The playback engine's state machine: state, current track and session record.
/// Opening sources and devices and running the decode thread happen outside; this records
/// their outcome and answers the engine's queries.
pub struct PlaybackControl {
    state: PlaybackState,
    current_track: Option<String>,
    session: Option<Session>,
}

impl View for PlaybackControl {
    type V = ControlView;

    closed spec fn view(&self) -> ControlView {
        ControlView {
            state: self.state,
            current_track: self.current_track,
            session: self.session,
        }
    }
}

impl ControlView {
    pub open spec fn wf(self) -> bool {
        &&& self.session is None ==> self.state == PlaybackState::Stopped
            && self.current_track is None
        &&& self.session matches Some(s) ==> s.sample_rate > 0 && self.current_track is Some
            && (!s.track_ended ==> self.state != PlaybackState::Stopped)
    }
}

impl PlaybackControl {
    pub open spec fn wf(&self) -> bool {
        self@.wf()
    }

    /// A stopped engine with no session.
    pub fn new() -> (r: Self)
        ensures
            r.wf(),
            r@.state == PlaybackState::Stopped,
            r@.current_track is None,
            r@.session is None,
    {
        PlaybackControl { state: PlaybackState::Stopped, current_track: None, session: None }
    }

    /// Records a new session for `path` whose source and device are open and whose decode
    /// thread runs: Playing, or Paused when `start_paused`. Position starts at `start_frame`.
    pub fn start(
        &mut self,
        path: String,
        sample_rate: u32,
        start_frame: u64,
        duration_ms: Option<u64>,
        start_paused: bool,
    )
        requires
            sample_rate > 0,
        ensures
            final(self).wf(),
            final(self)@.state == if start_paused {
                PlaybackState::Paused
            } else {
                PlaybackState::Playing
            },
            final(self)@.current_track == Some(path),
            final(self)@.session == Some(
                Session { sample_rate, frames_played: start_frame, duration_ms, track_ended: false },
            ),
    {
        self.session = Some(
            Session { sample_rate, frames_played: start_frame, duration_ms, track_ended: false },
        );
        self.current_track = Some(path);
        self.state = if start_paused {
            PlaybackState::Paused
        } else {
            PlaybackState::Playing
        };
    }

    /// Ends the session, if any: Stopped, no current track. Idempotent.
    pub fn stop(&mut self)
        ensures
            final(self).wf(),
            final(self)@.state == PlaybackState::Stopped,
            final(self)@.current_track is None,
            final(self)@.session is None,
    {
        self.session = None;
        self.current_track = None;
        self.state = PlaybackState::Stopped;
    }

    /// Paused, when a session exists; returns whether it does (and so the buffer is to pause).
    pub fn pause(&mut self) -> (r: bool)
        requires
            old(self).wf(),
        ensures
            final(self).wf(),
            r == old(self)@.session is Some,
            r ==> final(self)@ == (ControlView { state: PlaybackState::Paused, ..old(self)@ }),
            !r ==> final(self)@ == old(self)@,
    {
        if self.session.is_some() {
            self.state = PlaybackState::Paused;
            true
        } else {
            false
        }
    }

    /// Playing, when a session exists; returns whether it does (and so the buffer is to resume).
    pub fn resume(&mut self) -> (r: bool)
        requires
            old(self).wf(),
        ensures
            final(self).wf(),
            r == old(self)@.session is Some,
            r ==> final(self)@ == (ControlView { state: PlaybackState::Playing, ..old(self)@ }),
            !r ==> final(self)@ == old(self)@,
    {
        if self.session.is_some() {
            self.state = PlaybackState::Playing;
            true
        } else {
            false
        }
    }

    /// Counts `frames` more source frames as handed to the buffer (saturating).
    pub fn record_frames(&mut self, frames: u64)
        requires
            old(self).wf(),
        ensures
            final(self).wf(),
            final(self)@.state == old(self)@.state,
            final(self)@.current_track == old(self)@.current_track,
            match old(self)@.session {
                Some(s) => final(self)@.session == Some(
                    Session {
                        frames_played: if s.frames_played + frames <= u64::MAX {
                            (s.frames_played + frames) as u64
                        } else {
                            u64::MAX
                        },
                        ..s
                    },
                ),
                None => final(self)@.session is None,
            },
    {
        match self.session {
            Some(s) => {
                let total = if frames <= u64::MAX - s.frames_played {
                    s.frames_played + frames
                } else {
                    u64::MAX
                };
                self.session = Some(Session { frames_played: total, ..s });
            },
            None => {},
        }
    }

    /// The decode loop reached the end of the stream and the buffer drained: the track has
    /// ended and the engine is Stopped, the session record staying for the queries.
    pub fn finish(&mut self)
        requires
            old(self).wf(),
        ensures
            final(self).wf(),
            final(self)@.current_track == old(self)@.current_track,
            match old(self)@.session {
                Some(s) => final(self)@.session == Some(Session { track_ended: true, ..s })
                    && final(self)@.state == PlaybackState::Stopped,
                None => final(self)@ == old(self)@,
            },
    {
        match self.session {
            Some(s) => {
                self.session = Some(Session { track_ended: true, ..s });
                self.state = PlaybackState::Stopped;
            },
            None => {},
        }
    }

    /// Gets the current playback state.
    pub fn state(&self) -> (r: PlaybackState)
        ensures
            r == self@.state,
    {
        self.state
    }

    /// Gets the current track path, if any.
    pub fn current_track(&self) -> (r: Option<String>)
        ensures
            r == self@.current_track,
    {
        self.current_track.clone()
    }

    /// True once the current session's track ended by itself.
    pub fn track_ended(&self) -> (r: bool)
        ensures
            r == (self@.session matches Some(s) && s.track_ended),
    {
        match self.session {
            Some(s) => s.track_ended,
            None => false,
        }
    }

    /// Total length of the current track in milliseconds, when known.
    pub fn duration_ms(&self) -> (r: Option<u64>)
        ensures
            r == match self@.session {
                Some(s) => s.duration_ms,
                None => None,
            },
    {
        match self.session {
            Some(s) => s.duration_ms,
            None => None,
        }
    }

    /// Playback position in milliseconds: frames handed to the buffer over the source rate.
    pub fn position_ms(&self) -> (r: u64)
        requires
            self.wf(),
        ensures
            r == match self@.session {
                Some(s) => if s.frames_played as int * 1000 / s.sample_rate as int <= u64::MAX {
                    s.frames_played as int * 1000 / s.sample_rate as int
                } else {
                    u64::MAX as int
                },
                None => 0,
            },
    {
        match self.session {
            Some(s) => {
                assert(s.frames_played as u128 * 1000 <= u128::MAX) by (nonlinear_arith)
                    requires
                        s.frames_played <= u64::MAX,
                ;
                let ms = (s.frames_played as u128) * 1000 / (s.sample_rate as u128);
                if ms <= u64::MAX as u128 {
                    ms as u64
                } else {
                    u64::MAX
                }
            },
            None => 0,
        }
    }

    /// What a seek needs: the current track and whether it was Playing (else it resumes
    /// Paused). `NoTrack` when there is no current track.
    pub fn seek_target(&self) -> (r: Result<(String, bool), PlayerError>)
        ensures
            match self@.current_track {
                Some(t) => r == Ok::<(String, bool), PlayerError>(
                    (t, self@.state == PlaybackState::Playing),
                ),
                None => r == Err::<(String, bool), PlayerError>(PlayerError::NoTrack),
            },
    {
        match &self.current_track {
            Some(t) => Ok((t.clone(), self.state == PlaybackState::Playing)),
            None => Err(PlayerError::NoTrack),
        }
    }
}

} // verus!
