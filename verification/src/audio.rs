//! One recording at a time: the buffer that the capture callback fills, the
//! stop signal, and the audio that is handed on when capture stops.
//!
//! The device is opened with its own sample rate. What is handed to
//! transcription is mono, 16 bit, at the device's rate or at 16 kHz,
//! whichever is lower.

use crate::error::PipelineError;
use crate::resample::{downsample, lemma_resample_length, resample};
use vstd::prelude::*;

verus! {

/// The sample rate that transcription works at, in Hz.
pub const TARGET_RATE: u32 = 16000;

/// The loudness window holds one part in this many of a second.
pub const LEVEL_WINDOWS_PER_SECOND: u32 = 30;

/// What asking for the default input device gave.
#[derive(Clone, Debug, PartialEq, Eq)]
pub enum DeviceProbe {
    /// There is no input device.
    NoDevice,
    /// There is one, and its default format could not be read.
    ConfigFailed(String),
    /// The device and its own format.
    Ready { sample_rate: u32, channels: u16 },
}

/// The format that a session captures in.
#[derive(Clone, Copy, Debug, PartialEq, Eq, Structural)]
pub struct CaptureFormat {
    /// The device's own sample rate, in Hz.
    pub sample_rate: u32,
    /// The device's own channel count.
    pub channels: u16,
    /// How many mono samples make one loudness window.
    pub level_window: usize,
}

/// The audio of a finished session: mono, 16 bit.
#[derive(Clone, Debug, PartialEq, Eq)]
pub struct FinalizedAudio {
    /// The samples, in order.
    pub samples: Vec<i16>,
    /// Their rate, in Hz.
    pub sample_rate: u32,
}

/// The state of the recorder: the samples of the current or the last
/// session, the rate they were captured at, and whether a stop signal is
/// waiting to be sent.
pub struct AudioState {
    samples: Vec<i16>,
    stop_armed: bool,
    sample_rate: u32,
}

/// The rate of the finalized audio for a device rate.
pub open spec fn final_rate(device_rate: u32) -> u32 {
    if device_rate > TARGET_RATE {
        TARGET_RATE
    } else {
        device_rate
    }
}

/// The samples of the finalized audio: resampled where the device is faster
/// than the target rate, unchanged where it is not.
pub open spec fn final_samples(samples: Seq<i16>, device_rate: u32) -> Seq<i16> {
    if device_rate > TARGET_RATE {
        resample(samples, device_rate as nat, TARGET_RATE as nat)
    } else {
        samples
    }
}

/// What `samples` captured at `device_rate` are finalized to: no audio is
/// an error, any audio is handed on.
pub open spec fn finalized(samples: Seq<i16>, device_rate: u32) -> Result<
    (Seq<i16>, u32),
    PipelineError,
> {
    if samples.len() == 0 {
        Err(PipelineError::NoAudioCaptured)
    } else {
        Ok((final_samples(samples, device_rate), final_rate(device_rate)))
    }
}

/// The outcome of stopping with `samples` in the buffer. Only a live
/// session has audio to hand on: what an earlier session left in the buffer
/// is not captured audio.
pub open spec fn stop_outcome(live: bool, samples: Seq<i16>, device_rate: u32) -> Result<
    (Seq<i16>, u32),
    PipelineError,
> {
    if live {
        finalized(samples, device_rate)
    } else {
        Err(PipelineError::NoAudioCaptured)
    }
}

/// Finalized audio as its samples and its rate.
pub open spec fn audio_view(r: Result<FinalizedAudio, PipelineError>) -> Result<
    (Seq<i16>, u32),
    PipelineError,
> {
    match r {
        Ok(a) => Ok((a.samples@, a.sample_rate)),
        Err(e) => Err(e),
    }
}

/// The outcome of starting a session.
pub open spec fn start_outcome(licensed: bool, probe: DeviceProbe) -> Result<
    CaptureFormat,
    PipelineError,
> {
    if !licensed {
        Err(PipelineError::NotActivated)
    } else {
        match probe {
            DeviceProbe::NoDevice => Err(PipelineError::NoInputDevice),
            DeviceProbe::ConfigFailed(detail) => Err(PipelineError::DeviceConfig(detail)),
            DeviceProbe::Ready { sample_rate, channels } => Ok(
                CaptureFormat {
                    sample_rate,
                    channels,
                    level_window: (sample_rate / LEVEL_WINDOWS_PER_SECOND) as usize,
                },
            ),
        }
    }
}

/// The sum of the squares of `s`.
pub open spec fn sum_squares(s: Seq<i16>) -> nat
    decreases s.len(),
{
    if s.len() == 0 {
        0
    } else {
        (sum_squares(s.drop_last()) + (s.last() as int) * (s.last() as int)) as nat
    }
}

impl Default for AudioState {
    /// No samples, no session, and the target rate as the rate.
    fn default() -> (s: Self)
        ensures
            s.samples() == Seq::<i16>::empty(),
            !s.stop_armed(),
            s.sample_rate() == TARGET_RATE,
    {
        AudioState { samples: Vec::new(), stop_armed: false, sample_rate: TARGET_RATE }
    }
}

impl AudioState {
    /// The samples in the buffer.
    pub closed spec fn samples(self) -> Seq<i16> {
        self.samples@
    }

    /// Whether a session is live, that is, its stop signal not yet sent.
    pub closed spec fn stop_armed(self) -> bool {
        self.stop_armed
    }

    /// The rate that the buffer's samples were captured at.
    pub closed spec fn sample_rate(self) -> u32 {
        self.sample_rate
    }

    /// How many samples are in the buffer.
    pub fn sample_count(&self) -> (n: usize)
        ensures
            n == self.samples().len(),
    {
        self.samples.len()
    }

    /// Whether a session is live.
    pub fn is_recording(&self) -> (b: bool)
        ensures
            b == self.stop_armed(),
    {
        self.stop_armed
    }

    /// The rate that the buffer's samples were captured at.
    pub fn device_rate(&self) -> (r: u32)
        ensures
            r == self.sample_rate(),
    {
        self.sample_rate
    }

    /// Takes the samples of one hardware buffer, already mono and 16 bit.
    /// They are kept while a session is live and dropped when none is.
    pub fn append(&mut self, mono: &[i16])
        ensures
            final(self).samples() == if old(self).stop_armed() {
                old(self).samples() + mono@
            } else {
                old(self).samples()
            },
            final(self).stop_armed() == old(self).stop_armed(),
            final(self).sample_rate() == old(self).sample_rate(),
    {
        if self.stop_armed {
            let ghost before = self.samples@;
            let mut i: usize = 0;
            while i < mono.len()
                invariant
                    i <= mono@.len(),
                    self.samples@ == before + mono@.take(i as int),
                    self.stop_armed == old(self).stop_armed,
                    self.sample_rate == old(self).sample_rate,
                decreases mono@.len() - i,
            {
                self.samples.push(mono[i]);
                i += 1;
                assert(self.samples@ =~= before + mono@.take(i as int));
            }
            assert(mono@.take(i as int) =~= mono@);
        }
    }

    /// Takes the stop signal, which is there once per session: `true` for
    /// the call that takes it, `false` for every call after.
    pub fn take_stop_signal(&mut self) -> (taken: bool)
        ensures
            taken == old(self).stop_armed(),
            !final(self).stop_armed(),
            final(self).samples() == old(self).samples(),
            final(self).sample_rate() == old(self).sample_rate(),
    {
        let taken = self.stop_armed;
        self.stop_armed = false;
        taken
    }
}

/// Starts a session on the device that was found: the buffer is emptied, the
/// device's rate noted and the stop signal armed. Without activation or
/// without a usable device nothing changes and the reason is returned.
pub fn start_recording_impl(state: &mut AudioState, licensed: bool, probe: DeviceProbe) -> (r:
    Result<CaptureFormat, PipelineError>)
    ensures
        r == start_outcome(licensed, probe),
        match r {
            Ok(format) => {
                &&& final(state).samples() == Seq::<i16>::empty()
                &&& final(state).stop_armed()
                &&& final(state).sample_rate() == format.sample_rate
            },
            Err(_) => *final(state) == *old(state),
        },
{
    if !licensed {
        return Err(PipelineError::NotActivated);
    }
    match probe {
        DeviceProbe::NoDevice => Err(PipelineError::NoInputDevice),
        DeviceProbe::ConfigFailed(detail) => Err(PipelineError::DeviceConfig(detail)),
        DeviceProbe::Ready { sample_rate, channels } => {
            state.samples.clear();
            state.sample_rate = sample_rate;
            state.stop_armed = true;
            Ok(
                CaptureFormat {
                    sample_rate,
                    channels,
                    level_window: (sample_rate / LEVEL_WINDOWS_PER_SECOND) as usize,
                },
            )
        },
    }
}

/// Finalizes what a session captured at `device_rate`.
pub fn finalize(samples: &[i16], device_rate: u32) -> (r: Result<FinalizedAudio, PipelineError>)
    ensures
        audio_view(r) == finalized(samples@, device_rate),
{
    if samples.len() == 0 {
        return Err(PipelineError::NoAudioCaptured);
    }
    if device_rate > TARGET_RATE {
        proof {
            lemma_resample_length(samples@, device_rate as nat, TARGET_RATE as nat);
        }
        Ok(
            FinalizedAudio {
                samples: downsample(samples, device_rate, TARGET_RATE),
                sample_rate: TARGET_RATE,
            },
        )
    } else {
        Ok(
            FinalizedAudio {
                samples: downsample(samples, device_rate, device_rate),
                sample_rate: device_rate,
            },
        )
    }
}

/// Finalizes the buffer of a session whose stop signal was taken: `live`
/// is what `take_stop_signal` returned. Between the two the caller lets the
/// last hardware buffer drain.
pub fn finish_recording(state: &AudioState, live: bool) -> (r: Result<
    FinalizedAudio,
    PipelineError,
>)
    ensures
        audio_view(r) == stop_outcome(live, state.samples(), state.sample_rate()),
{
    if live {
        finalize(state.samples.as_slice(), state.sample_rate)
    } else {
        Err(PipelineError::NoAudioCaptured)
    }
}

/// Stops the session at once: the stop signal is taken and the buffer, which
/// stays as it is, is finalized. An empty buffer, and a stop without a live
/// session, are the error `NoAudioCaptured`.
pub fn stop_recording_impl(state: &mut AudioState) -> (r: Result<FinalizedAudio, PipelineError>)
    ensures
        audio_view(r) == stop_outcome(
            old(state).stop_armed(),
            old(state).samples(),
            old(state).sample_rate(),
        ),
        !final(state).stop_armed(),
        final(state).samples() == old(state).samples(),
        final(state).sample_rate() == old(state).sample_rate(),
{
    let live = state.take_stop_signal();
    finish_recording(state, live)
}

/// The rolling window from which the loudness level is measured.
pub struct LevelMeter {
    window: Vec<i16>,
    threshold: usize,
}

/// What one full window measured: the sum of the squares of its samples and
/// how many there were. The level is their root mean square.
#[derive(Clone, Copy, Debug, PartialEq, Eq, Structural)]
pub struct LevelReading {
    /// Sum of the squared samples.
    pub sum_squares: u128,
    /// Number of samples.
    pub count: usize,
}

proof fn lemma_sum_squares_bound(s: Seq<i16>)
    ensures
        sum_squares(s) <= s.len() * 0x4000_0000,
    decreases s.len(),
{
    if s.len() > 0 {
        lemma_sum_squares_bound(s.drop_last());
        let v = s.last() as int;
        assert(0 <= v * v <= 0x4000_0000) by (nonlinear_arith)
            requires
                -0x8000 <= v < 0x8000,
        ;
        assert(s.drop_last().len() == s.len() - 1);
        assert(sum_squares(s) == sum_squares(s.drop_last()) + v * v);
    }
}

impl LevelMeter {
    /// The samples gathered since the last reading.
    pub closed spec fn window(self) -> Seq<i16> {
        self.window@
    }

    /// How many samples make a window full.
    pub closed spec fn threshold(self) -> nat {
        self.threshold as nat
    }

    /// An empty window that is full at `format.level_window` samples.
    pub fn new(format: CaptureFormat) -> (m: Self)
        ensures
            m.window() == Seq::<i16>::empty(),
            m.threshold() == format.level_window,
    {
        LevelMeter { window: Vec::new(), threshold: format.level_window }
    }

    /// Adds the samples of one hardware buffer. Once the window is full it
    /// is measured and emptied; until then there is no reading.
    pub fn feed(&mut self, mono: &[i16]) -> (r: Option<LevelReading>)
        ensures
            final(self).threshold() == old(self).threshold(),
            (old(self).window() + mono@).len() < old(self).threshold() ==> r is None
                && final(self).window() == old(self).window() + mono@,
            (old(self).window() + mono@).len() >= old(self).threshold() ==> r == Some(
                LevelReading {
                    sum_squares: sum_squares(old(self).window() + mono@) as u128,
                    count: (old(self).window() + mono@).len() as usize,
                },
            ) && final(self).window() == Seq::<i16>::empty(),
    {
        let ghost before = self.window@;
        let mut i: usize = 0;
        while i < mono.len()
            invariant
                i <= mono@.len(),
                self.window@ == before + mono@.take(i as int),
                self.threshold == old(self).threshold,
            decreases mono@.len() - i,
        {
            self.window.push(mono[i]);
            i += 1;
            assert(self.window@ =~= before + mono@.take(i as int));
        }
        assert(mono@.take(i as int) =~= mono@);
        if self.window.len() < self.threshold {
            return None;
        }
        let count: usize = self.window.len();
        let mut sum: u128 = 0;
        let mut k: usize = 0;
        while k < count
            invariant
                k <= count,
                count == self.window@.len(),
                sum == sum_squares(self.window@.take(k as int)),
            decreases count - k,
        {
            let v: i64 = self.window[k] as i64;
            proof {
                lemma_sum_squares_bound(self.window@.take(k as int));
                assert(self.window@.take(k + 1).drop_last() =~= self.window@.take(k as int));
                assert(0 <= v * v <= 0x4000_0000) by (nonlinear_arith)
                    requires
                        -0x8000 <= v < 0x8000,
                ;
                assert(k * 0x4000_0000 <= usize::MAX * 0x4000_0000) by (nonlinear_arith)
                    requires
                        k <= usize::MAX,
                ;
            }
            sum = sum + (v * v) as u128;
            k += 1;
        }
        assert(self.window@.take(k as int) =~= self.window@);
        self.window.clear();
        Some(LevelReading { sum_squares: sum, count })
    }
}

/// Stopping a live session is the error `NoAudioCaptured` exactly when the
/// buffer is empty, whatever the device's rate; and stopping never fails in
/// another way.
pub proof fn lemma_no_audio_iff_empty(live: bool, samples: Seq<i16>, device_rate: u32)
    ensures
        stop_outcome(live, samples, device_rate) is Err <==> !live || samples.len() == 0,
        stop_outcome(live, samples, device_rate) is Err ==> stop_outcome(
            live,
            samples,
            device_rate,
        ) == Err::<(Seq<i16>, u32), PipelineError>(PipelineError::NoAudioCaptured),
{
}

/// The finalized audio is at the lower of the device's rate and the target
/// rate, and holds no more samples than were captured.
pub proof fn lemma_final_audio_bounds(samples: Seq<i16>, device_rate: u32)
    ensures
        final_rate(device_rate) <= TARGET_RATE,
        final_rate(device_rate) <= device_rate,
        final_rate(device_rate) == TARGET_RATE || final_rate(device_rate) == device_rate,
        final_samples(samples, device_rate).len() <= samples.len(),
        device_rate <= TARGET_RATE ==> final_samples(samples, device_rate) == samples,
{
    if device_rate > TARGET_RATE {
        lemma_resample_length(samples, device_rate as nat, TARGET_RATE as nat);
    }
}

} // verus!
