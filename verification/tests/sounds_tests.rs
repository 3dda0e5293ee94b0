use mercer_voice::sounds::{
    remaining_samples, sound_duration_ms, tone_layout, total_samples, Sound, ToneLayout,
    TONE_SAMPLE_RATE,
};

#[test]
fn the_start_tone_is_shorter_than_the_stop_tone() {
    assert_eq!(sound_duration_ms(Sound::Start), 14);
    assert_eq!(sound_duration_ms(Sound::Stop), 16);
    assert_eq!(TONE_SAMPLE_RATE, 48000);
}

#[test]
fn a_tone_is_laid_out_with_silence_around_it() {
    assert_eq!(
        tone_layout(14),
        ToneLayout { lead_in: 96, body: 672, tail_start: 504, tail_len: 168, trail: 144 }
    );
    assert_eq!(
        tone_layout(16),
        ToneLayout { lead_in: 96, body: 768, tail_start: 576, tail_len: 192, trail: 144 }
    );
    assert_eq!(total_samples(&tone_layout(14)), 912);
}

#[test]
fn a_very_short_tone_fades_over_eight_samples() {
    assert_eq!(tone_layout(0), ToneLayout { lead_in: 96, body: 0, tail_start: 0, tail_len: 8, trail: 144 });
    let l = tone_layout(1);
    assert_eq!(l.body, 48);
    assert_eq!(l.tail_len, 12);
    assert_eq!(l.tail_start, 36);
    let tiny = ToneLayout { lead_in: 96, body: 5, tail_start: 0, tail_len: 8, trail: 144 };
    assert_eq!(total_samples(&tiny), 245);
}

#[test]
fn the_longest_tone_is_computed_without_overflow() {
    let l = tone_layout(89478);
    assert_eq!(l.body, 4294944);
}

#[test]
fn the_rest_of_a_tone_shrinks_to_nothing() {
    assert_eq!(remaining_samples(912, 0), 912);
    assert_eq!(remaining_samples(912, 911), 1);
    assert_eq!(remaining_samples(912, 912), 0);
    assert_eq!(remaining_samples(912, 913), 0);
}
