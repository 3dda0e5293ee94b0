//! The feedback tones: which there are and how their samples are laid out.

use vstd::prelude::*;

verus! {

/// The rate of the tones, in Hz.
pub const TONE_SAMPLE_RATE: u32 = 48000;

/// Silent samples before a tone, about two milliseconds.
pub const LEAD_IN_SAMPLES: usize = 96;

/// Silent samples after a tone, about three milliseconds.
pub const TRAIL_SAMPLES: usize = 144;

/// The longest tone whose sample count is computed in 32 bits.
pub const MAX_TONE_MS: u32 = 89478;

/// The two tones.
#[derive(Clone, Copy, Debug, PartialEq, Eq, Structural)]
pub enum Sound {
    /// Recording starts.
    Start,
    /// Recording stops.
    Stop,
}

/// How the samples of a tone are laid out.
#[derive(Clone, Copy, Debug, PartialEq, Eq, Structural)]
pub struct ToneLayout {
    /// Silent samples before the tone.
    pub lead_in: usize,
    /// Samples of the tone itself.
    pub body: usize,
    /// Index in the body from which the tone fades out.
    pub tail_start: usize,
    /// Length of the fade: a quarter of the body, and eight samples at least.
    pub tail_len: usize,
    /// Silent samples after the tone.
    pub trail: usize,
}

/// The length of a tone in milliseconds.
pub open spec fn duration_of(sound: Sound) -> u32 {
    match sound {
        Sound::Start => 14,
        Sound::Stop => 16,
    }
}

/// The samples of a tone of `duration_ms` milliseconds.
pub open spec fn body_samples(duration_ms: u32) -> int {
    TONE_SAMPLE_RATE * duration_ms / 1000
}

/// The length of the fade of a tone with `body` samples.
pub open spec fn fade_len(body: int) -> int {
    if body / 4 >= 8 {
        body / 4
    } else {
        8
    }
}

/// The layout of a tone of `duration_ms` milliseconds.
pub open spec fn layout_of(duration_ms: u32) -> ToneLayout {
    let body = body_samples(duration_ms);
    ToneLayout {
        lead_in: LEAD_IN_SAMPLES,
        body: body as usize,
        tail_start: (if body >= fade_len(body) {
            body - fade_len(body)
        } else {
            0
        }) as usize,
        tail_len: fade_len(body) as usize,
        trail: TRAIL_SAMPLES,
    }
}

/// The length of a tone in milliseconds.
pub fn sound_duration_ms(sound: Sound) -> (ms: u32)
    ensures
        ms == duration_of(sound),
{
    match sound {
        Sound::Start => 14,
        Sound::Stop => 16,
    }
}

/// The layout of a tone of `duration_ms` milliseconds.
pub fn tone_layout(duration_ms: u32) -> (layout: ToneLayout)
    requires
        duration_ms <= MAX_TONE_MS,
    ensures
        layout == layout_of(duration_ms),
        layout.tail_start + layout.tail_len >= layout.body,
        layout.tail_start <= layout.body,
{
    let body: usize = (TONE_SAMPLE_RATE * duration_ms / 1000) as usize;
    let quarter: usize = body / 4;
    let tail_len: usize = if quarter >= 8 {
        quarter
    } else {
        8
    };
    let tail_start: usize = if body >= tail_len {
        body - tail_len
    } else {
        0
    };
    ToneLayout { lead_in: LEAD_IN_SAMPLES, body, tail_start, tail_len, trail: TRAIL_SAMPLES }
}

/// How many samples a tone has in all.
pub fn total_samples(layout: &ToneLayout) -> (n: usize)
    requires
        layout.lead_in + layout.body + layout.trail <= usize::MAX,
    ensures
        n == layout.lead_in + layout.body + layout.trail,
{
    layout.lead_in + layout.body + layout.trail
}

/// How many samples of a tone are still to play at `position`.
pub fn remaining_samples(total: usize, position: usize) -> (n: usize)
    ensures
        n == if position <= total {
            total - position
        } else {
            0
        },
{
    if position <= total {
        total - position
    } else {
        0
    }
}

} // verus!
