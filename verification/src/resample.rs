//! Linear-interpolation resampling of 16-bit mono PCM.
//!
//! Positions are exact rationals: output sample `i` sits at source position
//! `i * from_rate / to_rate`, whose integer part picks the two bracketing
//! input samples and whose fractional part weighs them.

use vstd::prelude::*;

verus! {

/// Number of output samples for `n` input samples: `floor(n / (from_rate / to_rate))`.
pub open spec fn resampled_len(n: nat, from_rate: nat, to_rate: nat) -> nat {
    (n * to_rate) / from_rate
}

/// Index of the input sample at or just before output sample `i`.
pub open spec fn source_index(i: nat, from_rate: nat, to_rate: nat) -> nat {
    (i * from_rate) / to_rate
}

/// Numerator of the fractional part of the source position of output sample
/// `i`; the denominator is `to_rate`.
pub open spec fn source_offset(i: nat, from_rate: nat, to_rate: nat) -> nat {
    (i * from_rate) % to_rate
}

/// Division that rounds toward zero, for a positive divisor.
pub open spec fn truncating_div(x: int, d: int) -> int {
    if x >= 0 {
        x / d
    } else {
        -((-x) / d)
    }
}

/// `a + (num / den) * (b - a)`, rounded toward zero.
pub open spec fn interpolate(a: int, b: int, num: int, den: int) -> int {
    truncating_div(a * den + num * (b - a), den)
}

/// Output sample `i`: the interpolation of its two bracketing input samples,
/// or the last input sample where there is no sample after the low bracket.
pub open spec fn resampled_at(s: Seq<i16>, from_rate: nat, to_rate: nat, i: int) -> int {
    let idx = source_index(i as nat, from_rate, to_rate) as int;
    if idx + 1 < s.len() {
        interpolate(
            s[idx] as int,
            s[idx + 1] as int,
            source_offset(i as nat, from_rate, to_rate) as int,
            to_rate as int,
        )
    } else {
        s[s.len() - 1] as int
    }
}

/// The resampled sequence. Equal rates and empty input give the input back.
pub open spec fn resample(s: Seq<i16>, from_rate: nat, to_rate: nat) -> Seq<i16> {
    if from_rate == to_rate || s.len() == 0 {
        s
    } else {
        Seq::new(
            resampled_len(s.len(), from_rate, to_rate),
            |i: int| resampled_at(s, from_rate, to_rate, i) as i16,
        )
    }
}

/// The smaller of two sample values.
pub open spec fn lower(a: int, b: int) -> int {
    if a <= b {
        a
    } else {
        b
    }
}

/// The larger of two sample values.
pub open spec fn upper(a: int, b: int) -> int {
    if a <= b {
        b
    } else {
        a
    }
}

proof fn lemma_truncating_div_between(x: int, d: int, lo: int, hi: int)
    by (nonlinear_arith)
    requires
        d > 0,
        lo * d <= x,
        x <= hi * d,
    ensures
        lo <= truncating_div(x, d) <= hi,
{
}

proof fn lemma_weighted_between(a: int, b: int, num: int, den: int)
    by (nonlinear_arith)
    requires
        0 <= num < den,
    ensures
        lower(a, b) * den <= a * den + num * (b - a) <= upper(a, b) * den,
{
}

/// An interpolated value lies between the two values it interpolates.
pub proof fn lemma_interpolate_between(a: int, b: int, num: int, den: int)
    requires
        0 <= num < den,
    ensures
        lower(a, b) <= interpolate(a, b, num, den) <= upper(a, b),
{
    lemma_weighted_between(a, b, num, den);
    lemma_truncating_div_between(a * den + num * (b - a), den, lower(a, b), upper(a, b));
}

/// Every output position falls on an input sample.
pub proof fn lemma_source_index_in_range(n: nat, from_rate: nat, to_rate: nat, i: nat)
    by (nonlinear_arith)
    requires
        from_rate > 0,
        i < resampled_len(n, from_rate, to_rate),
    ensures
        to_rate > 0,
        source_index(i, from_rate, to_rate) < n,
        source_offset(i, from_rate, to_rate) < to_rate,
{
    if to_rate == 0 {
        assert(n * to_rate == 0);
    }
    assert((i + 1) * from_rate <= n * to_rate);
    assert(i * from_rate < n * to_rate);
}

/// Each output sample is a 16-bit value between its bracketing input samples.
pub proof fn lemma_resampled_at_between(s: Seq<i16>, from_rate: nat, to_rate: nat, i: int)
    requires
        from_rate > 0,
        0 <= i < resampled_len(s.len(), from_rate, to_rate),
    ensures
        ({
            let idx = source_index(i as nat, from_rate, to_rate) as int;
            let v = resampled_at(s, from_rate, to_rate, i);
            &&& 0 <= idx < s.len()
            &&& i16::MIN <= v <= i16::MAX
            &&& idx + 1 < s.len() ==> lower(s[idx] as int, s[idx + 1] as int) <= v <= upper(
                s[idx] as int,
                s[idx + 1] as int,
            )
            &&& idx + 1 >= s.len() ==> v == s[s.len() - 1]
        }),
{
    lemma_source_index_in_range(s.len(), from_rate, to_rate, i as nat);
    let idx = source_index(i as nat, from_rate, to_rate) as int;
    if idx + 1 < s.len() {
        lemma_interpolate_between(
            s[idx] as int,
            s[idx + 1] as int,
            source_offset(i as nat, from_rate, to_rate) as int,
            to_rate as int,
        );
    }
}

/// Resampling between equal rates, or of no samples, returns the input.
pub proof fn lemma_resample_identity(s: Seq<i16>, from_rate: nat, to_rate: nat)
    requires
        from_rate == to_rate || s.len() == 0,
    ensures
        resample(s, from_rate, to_rate) == s,
{
}

/// When the rate goes down, the output holds `|input| * to_rate / from_rate`
/// samples, rounded down: less than one sample short of the exact quotient,
/// and never longer than the input.
pub proof fn lemma_resample_length(s: Seq<i16>, from_rate: nat, to_rate: nat)
    by (nonlinear_arith)
    requires
        from_rate > to_rate,
    ensures
        resample(s, from_rate, to_rate).len() * from_rate <= s.len() * to_rate,
        s.len() * to_rate < (resample(s, from_rate, to_rate).len() + 1) * from_rate,
        resample(s, from_rate, to_rate).len() <= s.len(),
{
    let n = s.len();
    let m = resampled_len(n, from_rate, to_rate);
    assert(m * from_rate <= n * to_rate < (m + 1) * from_rate);
    assert(n * to_rate <= n * from_rate);
    assert(m <= n);
    if s.len() == 0 {
        assert(m == 0);
    }
}

proof fn lemma_same_rate_index(i: nat, rate: nat)
    by (nonlinear_arith)
    requires
        rate > 0,
    ensures
        source_index(i, rate, rate) == i,
{
}

/// Every output sample lies between the two input samples that bracket its
/// source position, both included; past the last pair it is the last input
/// sample.
pub proof fn lemma_resample_between(s: Seq<i16>, from_rate: nat, to_rate: nat, i: int)
    requires
        from_rate > 0,
        0 <= i < resample(s, from_rate, to_rate).len(),
    ensures
        ({
            let idx = source_index(i as nat, from_rate, to_rate) as int;
            let v = resample(s, from_rate, to_rate)[i] as int;
            &&& 0 <= idx < s.len()
            &&& idx + 1 < s.len() ==> lower(s[idx] as int, s[idx + 1] as int) <= v <= upper(
                s[idx] as int,
                s[idx + 1] as int,
            )
            &&& idx + 1 >= s.len() ==> v == s[s.len() - 1]
        }),
{
    if from_rate == to_rate {
        lemma_same_rate_index(i as nat, from_rate);
    } else if s.len() > 0 {
        lemma_resampled_at_between(s, from_rate, to_rate, i);
    }
}

/// The value `v` of output sample `i` lies between the two input samples
/// that bracket its source position, both included: the sample at
/// `floor(i * from_rate / to_rate)` and the one after it, or the last one
/// where there is none after it.
pub open spec fn is_bracketed(s: Seq<i16>, from_rate: nat, to_rate: nat, i: int, v: int) -> bool {
    let lo = source_index(i as nat, from_rate, to_rate) as int;
    let hi = if lo + 1 < s.len() {
        lo + 1
    } else {
        s.len() - 1
    };
    &&& 0 <= lo < s.len()
    &&& lower(s[lo] as int, s[hi] as int) <= v <= upper(s[lo] as int, s[hi] as int)
}

/// `n` samples can be resampled on this machine: nothing is to compute, or
/// the source rate is positive and the output is no longer than the machine
/// can count.
pub open spec fn can_resample(n: nat, from_rate: nat, to_rate: nat) -> bool {
    from_rate == to_rate || n == 0 || (from_rate > 0 && resampled_len(n, from_rate, to_rate)
        <= usize::MAX)
}

/// Every output sample of a resampling from a positive rate is bracketed.
pub proof fn lemma_resample_bracketed(s: Seq<i16>, from_rate: nat, to_rate: nat)
    requires
        from_rate > 0,
    ensures
        forall|i: int|
            0 <= i < resample(s, from_rate, to_rate).len() ==> is_bracketed(
                s,
                from_rate,
                to_rate,
                i,
                #[trigger] resample(s, from_rate, to_rate)[i] as int,
            ),
{
    assert forall|i: int| 0 <= i < resample(s, from_rate, to_rate).len() implies is_bracketed(
        s,
        from_rate,
        to_rate,
        i,
        #[trigger] resample(s, from_rate, to_rate)[i] as int,
    ) by {
        lemma_resample_between(s, from_rate, to_rate, i);
    }
}

/// When the rate goes down, any number of samples that the machine holds
/// can be resampled.
pub proof fn lemma_falling_rate_fits(n: nat, from_rate: nat, to_rate: nat)
    by (nonlinear_arith)
    requires
        from_rate > to_rate,
        n <= usize::MAX,
    ensures
        can_resample(n, from_rate, to_rate),
{
    assert(n * to_rate <= n * from_rate);
    assert(resampled_len(n, from_rate, to_rate) <= n);
}

/// Resamples `samples` from `from_rate` to `to_rate` by linear interpolation.
///
/// Equal rates and empty input copy the input. Otherwise the source rate must
/// be positive and the output length must fit the machine; a falling rate
/// always fits.
pub fn downsample(samples: &[i16], from_rate: u32, to_rate: u32) -> (out: Vec<i16>)
    requires
        can_resample(samples@.len(), from_rate as nat, to_rate as nat),
    ensures
        out@ == resample(samples@, from_rate as nat, to_rate as nat),
        from_rate == to_rate || samples@.len() == 0 ==> out@ == samples@,
        from_rate > 0 ==> forall|i: int|
            0 <= i < out@.len() ==> is_bracketed(
                samples@,
                from_rate as nat,
                to_rate as nat,
                i,
                #[trigger] out@[i] as int,
            ),
{
    let n: usize = samples.len();
    if from_rate == to_rate || n == 0 {
        let mut copy: Vec<i16> = Vec::with_capacity(n);
        let mut k: usize = 0;
        while k < n
            invariant
                n == samples@.len(),
                k <= n,
                copy@ == samples@.subrange(0, k as int),
            decreases n - k,
        {
            copy.push(samples[k]);
            k += 1;
            assert(copy@ =~= samples@.subrange(0, k as int));
        }
        assert(copy@ =~= samples@);
        proof {
            if from_rate > 0 {
                lemma_resample_bracketed(samples@, from_rate as nat, to_rate as nat);
            }
        }
        return copy;
    }
    let from: u128 = from_rate as u128;
    let to: u128 = to_rate as u128;
    assert(n * to <= usize::MAX * u32::MAX) by (nonlinear_arith)
        requires
            n <= usize::MAX,
            to <= u32::MAX,
    ;
    let out_len: usize = (((n as u128) * to) / from) as usize;
    let mut out: Vec<i16> = Vec::new();
    let mut i: usize = 0;
    while i < out_len
        invariant
            n == samples@.len(),
            from == from_rate,
            to == to_rate,
            from_rate > 0,
            out_len == resampled_len(n as nat, from_rate as nat, to_rate as nat),
            i <= out_len,
            out@.len() == i,
            forall|j: int|
                0 <= j < i ==> out@[j] == #[trigger] resampled_at(
                    samples@,
                    from_rate as nat,
                    to_rate as nat,
                    j,
                ) as i16,
        decreases out_len - i,
    {
        proof {
            lemma_resampled_at_between(samples@, from_rate as nat, to_rate as nat, i as int);
            assert(i * from <= usize::MAX * u32::MAX) by (nonlinear_arith)
                requires
                    i <= usize::MAX,
                    from <= u32::MAX,
            ;
        }
        let pos: u128 = (i as u128) * from;
        let idx: usize = (pos / to) as usize;
        let rem: i64 = (pos % to) as i64;
        let s: i16 = if idx + 1 < n {
            let a: i64 = samples[idx] as i64;
            let b: i64 = samples[idx + 1] as i64;
            let den: i64 = to_rate as i64;
            assert(-0x8000 * 0x1_0000_0000 <= a * den <= 0x8000 * 0x1_0000_0000)
                by (nonlinear_arith)
                requires
                    -0x8000 <= a < 0x8000,
                    0 < den < 0x1_0000_0000,
            ;
            assert(-0x1_0000 * 0x1_0000_0000 <= rem * (b - a) <= 0x1_0000 * 0x1_0000_0000)
                by (nonlinear_arith)
                requires
                    -0x1_0000 < b - a < 0x1_0000,
                    0 <= rem < 0x1_0000_0000,
            ;
            let weighted: i64 = a * den + rem * (b - a);
            (weighted / den) as i16
        } else {
            samples[n - 1]
        };
        out.push(s);
        i += 1;
    }
    assert(out@ =~= resample(samples@, from_rate as nat, to_rate as nat));
    proof {
        lemma_resample_bracketed(samples@, from_rate as nat, to_rate as nat);
    }
    out
}

/// Resamples where the machine can, and says so where it cannot: with a
/// source rate of zero, and with a rising rate whose output would be longer
/// than the machine can count.
pub fn checked_downsample(samples: &[i16], from_rate: u32, to_rate: u32) -> (r: Option<Vec<i16>>)
    ensures
        r is Some <==> can_resample(samples@.len(), from_rate as nat, to_rate as nat),
        r matches Some(out) ==> out@ == resample(samples@, from_rate as nat, to_rate as nat),
        r matches Some(out) ==> (from_rate > 0 ==> forall|i: int|
            0 <= i < out@.len() ==> is_bracketed(
                samples@,
                from_rate as nat,
                to_rate as nat,
                i,
                #[trigger] out@[i] as int,
            )),
{
    let n: usize = samples.len();
    if from_rate == to_rate || n == 0 {
        return Some(downsample(samples, from_rate, to_rate));
    }
    if from_rate == 0 {
        return None;
    }
    assert(n * to_rate <= usize::MAX * u32::MAX) by (nonlinear_arith)
        requires
            n <= usize::MAX,
            to_rate <= u32::MAX,
    ;
    let out_len: u128 = ((n as u128) * (to_rate as u128)) / (from_rate as u128);
    if out_len > usize::MAX as u128 {
        None
    } else {
        Some(downsample(samples, from_rate, to_rate))
    }
}

} // verus!
