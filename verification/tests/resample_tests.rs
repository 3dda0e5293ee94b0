use mercer_voice::resample::{checked_downsample, downsample};

fn ramp(n: usize, step: i16) -> Vec<i16> {
    let mut v = Vec::new();
    let mut i = 0;
    while i < n {
        v.push((i as i16) * step);
        i += 1;
    }
    v
}

fn noise(n: usize) -> Vec<i16> {
    let mut v = Vec::new();
    let mut x: u32 = 12345;
    let mut i = 0;
    while i < n {
        x = x.wrapping_mul(1103515245).wrapping_add(12345);
        v.push(((x >> 16) as u16) as i16);
        i += 1;
    }
    v
}

#[test]
fn equal_rates_give_the_input_back() {
    let s = noise(257);
    assert_eq!(downsample(&s, 44100, 44100), s);
    assert_eq!(downsample(&s, 0, 0), s);
}

#[test]
fn empty_input_gives_empty_output() {
    let s: Vec<i16> = Vec::new();
    assert_eq!(downsample(&s, 48000, 16000), s);
    assert_eq!(downsample(&s, 0, 16000), s);
}

#[test]
fn integer_ratio_picks_every_third_sample() {
    let s = ramp(12, 3);
    assert_eq!(downsample(&s, 48000, 16000), vec![0, 9, 18, 27]);
}

#[test]
fn output_length_is_the_floor_of_the_scaled_length() {
    assert_eq!(downsample(&ramp(10, 1), 48000, 16000).len(), 3);
    assert_eq!(downsample(&ramp(441, 1), 44100, 16000).len(), 160);
    assert_eq!(downsample(&ramp(440, 1), 44100, 16000).len(), 159);
    assert_eq!(downsample(&ramp(2, 1), 48000, 16000).len(), 0);
}

#[test]
fn output_length_is_within_one_sample_of_the_quotient() {
    let rates: [(u32, u32); 4] = [(48000, 16000), (44100, 16000), (96000, 16000), (22050, 16000)];
    for (from, to) in rates {
        for n in [1usize, 7, 100, 441, 1000, 4411] {
            let out = downsample(&ramp(n, 1), from, to);
            let exact_num = (n as u64) * (to as u64);
            assert!((out.len() as u64) * (from as u64) <= exact_num);
            assert!(exact_num < (out.len() as u64 + 1) * (from as u64));
        }
    }
}

#[test]
fn halfway_positions_are_interpolated() {
    assert_eq!(downsample(&[0, 10, 20, 30], 3, 2), vec![0, 15]);
}

#[test]
fn interpolation_rounds_toward_zero() {
    assert_eq!(downsample(&[0, -1, -2, -5], 3, 2), vec![0, -1]);
    assert_eq!(downsample(&[0, 1, 2, 5], 3, 2), vec![0, 1]);
}

#[test]
fn the_last_sample_is_held_past_the_last_pair() {
    assert_eq!(downsample(&[0, 10], 1, 2), vec![0, 5, 10, 10]);
}

#[test]
fn a_target_rate_of_zero_gives_no_samples() {
    assert_eq!(downsample(&[1, 2, 3], 16000, 0), Vec::<i16>::new());
}

#[test]
fn every_output_sample_lies_between_its_bracketing_inputs() {
    let s = noise(2000);
    let rates: [(u32, u32); 3] = [(44100, 16000), (48000, 16000), (16000, 44100)];
    for (from, to) in rates {
        let out = downsample(&s, from, to);
        let mut i = 0;
        while i < out.len() {
            let idx = ((i as u64) * (from as u64) / (to as u64)) as usize;
            assert!(idx < s.len());
            if idx + 1 < s.len() {
                let lo = s[idx].min(s[idx + 1]);
                let hi = s[idx].max(s[idx + 1]);
                assert!(lo <= out[i] && out[i] <= hi);
            } else {
                assert_eq!(out[i], s[s.len() - 1]);
            }
            i += 1;
        }
    }
}

#[test]
fn extreme_samples_do_not_overflow() {
    let s = vec![i16::MIN, i16::MAX, i16::MIN, i16::MAX, i16::MIN];
    let out = downsample(&s, 4_000_000_000, 3_999_999_999);
    assert_eq!(out.len(), 4);
    assert_eq!(out[0], i16::MIN);
}

#[test]
fn the_checked_resampler_agrees_where_the_machine_can() {
    let s = noise(500);
    assert_eq!(checked_downsample(&s, 48000, 16000), Some(downsample(&s, 48000, 16000)));
    assert_eq!(checked_downsample(&s, 16000, 44100), Some(downsample(&s, 16000, 44100)));
    assert_eq!(checked_downsample(&s, 7, 7), Some(s.clone()));
    assert_eq!(checked_downsample(&s, 0, 0), Some(s.clone()));
    assert_eq!(checked_downsample(&[], 0, 16000), Some(Vec::new()));
    assert_eq!(checked_downsample(&s, 16000, 0), Some(Vec::new()));
}

#[test]
fn a_source_rate_of_zero_cannot_be_resampled() {
    assert_eq!(checked_downsample(&[1, 2, 3], 0, 16000), None);
    assert_eq!(checked_downsample(&[1], 0, 1), None);
}

#[test]
fn a_rising_rate_is_bracketed_too() {
    let s = vec![100, -100, 50, 0];
    let out = downsample(&s, 2, 5);
    assert_eq!(out, vec![100, 20, -60, -70, -10, 50, 30, 10, 0, 0]);
}
