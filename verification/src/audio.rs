//! Format normalization: raw integer PCM to the canonical representation
//! the recognition engine expects (mono, 16 kHz).
//!
//! Samples are kept in full-scale units of 1/32768: a stored value `v`
//! stands for the amplitude `v / 32768` of full scale, which is exactly
//! the 32-bit float the engine consumes (every such quotient is exact in a
//! 32-bit float, because 32768 is a power of two and a 16-bit value fits
//! the float's significand). The caller performs that final division when
//! handing the buffer to the engine; everything the transform decides —
//! channel policy, resampling, rejection of empty input — happens here.
//!
//! Channel policy: frames are reduced to mono by the arithmetic mean of
//! their channels, rounded toward negative infinity. Resampling policy:
//! proportional index mapping, so the output length scales by
//! `target_rate / source_rate` (rounded up) and every output sample is a
//! source sample.

use vstd::prelude::*;
use vstd::arithmetic::div_mod::{
    lemma_basic_div,
    lemma_div_basics_4,
    lemma_div_basics_2,
    lemma_div_basics_3,
    lemma_div_by_multiple,
    lemma_div_is_ordered,
    lemma_div_multiples_vanish,
    lemma_div_multiples_vanish_fancy,
    lemma_fundamental_div_mod,
    lemma_hoist_over_denominator,
};
use vstd::arithmetic::mul::{
    lemma_mul_inequality,
    lemma_mul_is_commutative,
    lemma_mul_is_distributive_add_other_way,
    lemma_mul_nonnegative,
};
use crate::config::TARGET_SAMPLE_RATE_HZ;
use crate::errors::PipelineError;

verus! {

/// Raw integer PCM as captured: interleaved samples plus the rate and
/// channel count the device reported.
#[derive(Debug, Clone)]
pub struct RawAudioBuffer {
    /// Interleaved PCM samples, `channel_count` per frame.
    pub samples: Vec<i16>,
    /// The rate the samples were captured at, in hertz.
    pub sample_rate_hz: u32,
    /// Number of interleaved channels.
    pub channel_count: u8,
}

impl RawAudioBuffer {
    /// A raw buffer is well formed when its rate and channel count are
    /// positive and its samples form whole frames.
    pub open spec fn wf(self) -> bool {
        &&& self.sample_rate_hz >= 1
        &&& self.channel_count >= 1
        &&& self.samples@.len() % (self.channel_count as nat) == 0
    }

    /// Number of whole frames the buffer holds.
    pub open spec fn frame_count(self) -> int {
        self.samples@.len() as int / self.channel_count as int
    }
}

/// Canonical audio for the inference call: mono, at the engine's required
/// rate, in full-scale units of 1/32768. Never empty.
#[derive(Debug, Clone)]
pub struct NormalizedAudio {
    /// Mono samples; `samples[i] / 32768` of full scale is the amplitude.
    pub samples: Vec<i16>,
}

impl NormalizedAudio {
    /// Normalized audio is well formed when it is non-empty; an empty
    /// buffer is a caller error the normalizer rejects.
    pub open spec fn wf(self) -> bool {
        self.samples@.len() >= 1
    }

    /// Take mono samples already at the engine's required rate as
    /// normalized audio. Zero-length audio is the same caller error the
    /// normalizer refuses, so no empty buffer reaches inference.
    pub fn validated(samples: Vec<i16>) -> (r: Result<NormalizedAudio, PipelineError>)
        ensures
            samples@.len() == 0 <==> (r matches Err(e) && e == PipelineError::EmptyBuffer),
            samples@.len() > 0 ==> r is Ok,
            r matches Ok(a) ==> a.wf() && a.samples@ == samples@,
    {
        if samples.len() == 0 {
            Err(PipelineError::EmptyBuffer)
        } else {
            Ok(NormalizedAudio { samples })
        }
    }
}

/// Sum of the samples at indices `lo <= i < hi`.
pub open spec fn sum_samples(s: Seq<i16>, lo: int, hi: int) -> int
    decreases hi - lo,
{
    if lo >= hi {
        0
    } else {
        s[lo] + sum_samples(s, lo + 1, hi)
    }
}

/// The mono value of frame `frame`: the mean of its `channels` samples,
/// rounded toward negative infinity.
pub open spec fn frame_mean(s: Seq<i16>, channels: int, frame: int) -> int {
    sum_samples(s, frame * channels, frame * channels + channels) / channels
}

/// The mono reduction of interleaved samples: one mean per frame.
pub open spec fn spec_mono(s: Seq<i16>, channels: int) -> Seq<int> {
    Seq::new((s.len() as int / channels) as nat, |frame: int| frame_mean(s, channels, frame))
}

/// Output length of resampling `n` samples from `src` to `dst` hertz:
/// `n * dst / src`, rounded up so that no non-empty input empties.
pub open spec fn resampled_len(n: int, src: int, dst: int) -> int {
    (n * dst + src - 1) / src
}

/// The source index that output position `i` of the resampler reads:
/// proportional mapping, clamped to the last sample.
pub open spec fn src_index(i: int, src: int, dst: int, n: int) -> int {
    if i * src / dst >= n {
        n - 1
    } else {
        i * src / dst
    }
}

/// The whole normalizing transform of a raw buffer: mono means, then
/// proportional resampling to the engine's required rate.
pub open spec fn spec_normalized(raw: RawAudioBuffer) -> Seq<int> {
    let m = spec_mono(raw.samples@, raw.channel_count as int);
    let src = raw.sample_rate_hz as int;
    let dst = TARGET_SAMPLE_RATE_HZ as int;
    Seq::new(
        resampled_len(m.len() as int, src, dst) as nat,
        |i: int| m[src_index(i, src, dst, m.len() as int)],
    )
}

/// Extending a sample sum by one index on the right adds that sample.
proof fn lemma_sum_snoc(s: Seq<i16>, lo: int, hi: int)
    requires
        lo <= hi,
    ensures
        sum_samples(s, lo, hi + 1) == sum_samples(s, lo, hi) + s[hi],
    decreases hi - lo,
{
    if lo == hi {
        assert(sum_samples(s, lo + 1, hi + 1) == 0);
    } else {
        lemma_sum_snoc(s, lo + 1, hi);
    }
}

/// A sum of `hi - lo` samples lies between the extreme sample values
/// scaled by the count.
proof fn lemma_sum_bounds(s: Seq<i16>, lo: int, hi: int)
    requires
        0 <= lo <= hi <= s.len(),
    ensures
        (hi - lo) * (-32768) <= sum_samples(s, lo, hi) <= (hi - lo) * 32767,
    decreases hi - lo,
{
    if lo < hi {
        lemma_sum_bounds(s, lo + 1, hi);
    }
}

/// A whole frame lies inside the sample sequence.
proof fn lemma_frame_in_bounds(s: Seq<i16>, channels: int, frame: int)
    requires
        channels >= 1,
        0 <= frame < s.len() as int / channels,
    ensures
        0 <= frame * channels,
        frame * channels + channels <= s.len(),
{
    let n = s.len() as int;
    lemma_mul_nonnegative(frame, channels);
    lemma_fundamental_div_mod(n, channels);
    lemma_mul_inequality(frame + 1, n / channels, channels);
    lemma_mul_is_distributive_add_other_way(channels, frame, 1);
}

/// Every frame mean lies in the 16-bit sample range.
proof fn lemma_frame_mean_bounds(s: Seq<i16>, channels: int, frame: int)
    requires
        channels >= 1,
        0 <= frame < s.len() as int / channels,
    ensures
        -32768 <= frame_mean(s, channels, frame) <= 32767,
{
    let lo = frame * channels;
    let fsum = sum_samples(s, lo, lo + channels);
    lemma_frame_in_bounds(s, channels, frame);
    lemma_sum_bounds(s, lo, lo + channels);
    lemma_div_is_ordered(channels * (-32768), fsum, channels);
    lemma_div_multiples_vanish(-32768, channels);
    lemma_div_is_ordered(fsum, channels * 32767, channels);
    lemma_div_multiples_vanish(32767, channels);
}

/// Reduce interleaved frames to mono by the per-frame arithmetic mean,
/// rounded toward negative infinity.
pub fn mix_to_mono(raw: &RawAudioBuffer) -> (out: Vec<i16>)
    requires
        raw.wf(),
    ensures
        out@.len() == raw.frame_count(),
        forall|j: int|
            0 <= j < out@.len() ==> out@[j] == frame_mean(
                raw.samples@,
                raw.channel_count as int,
                j,
            ),
{
    let c: usize = raw.channel_count as usize;
    let n: usize = raw.samples.len();
    let frames: usize = n / c;
    let mut out: Vec<i16> = Vec::new();
    let mut i: usize = 0;
    while i < frames
        invariant
            raw.wf(),
            c == raw.channel_count as int,
            n == raw.samples@.len(),
            frames == n as int / c as int,
            i <= frames,
            out@.len() == i,
            forall|j: int|
                0 <= j < i ==> out@[j] == frame_mean(raw.samples@, raw.channel_count as int, j),
        decreases frames - i,
    {
        proof {
            lemma_frame_in_bounds(raw.samples@, c as int, i as int);
        }
        let base: usize = i * c;
        let mut acc: u32 = 0;
        let mut k: usize = 0;
        while k < c
            invariant
                c == raw.channel_count as int,
                n == raw.samples@.len(),
                base == i as int * c as int,
                base + c <= n,
                k <= c,
                c <= 255,
                acc == sum_samples(raw.samples@, base as int, base as int + k as int) + k * 32768,
                acc <= k * 65535,
            decreases c - k,
        {
            let sample: i16 = raw.samples[base + k];
            let biased: u32 = ((sample as i32) + 32768) as u32;
            proof {
                lemma_sum_snoc(raw.samples@, base as int, base as int + k as int);
            }
            acc = acc + biased;
            k = k + 1;
        }
        let ghost s = raw.samples@;
        let ghost ci = c as int;
        let ghost fsum = sum_samples(s, base as int, base as int + ci);
        proof {
            lemma_hoist_over_denominator(fsum, 32768, c as nat);
            lemma_frame_mean_bounds(s, ci, i as int);
        }
        let mean_biased: u32 = acc / (c as u32);
        let mean: i32 = (mean_biased as i32) - 32768;
        out.push(mean as i16);
        i = i + 1;
    }
    out
}

/// Resample mono audio from `src_rate` to `dst_rate` hertz by
/// proportional index mapping: output position `i` reads source position
/// `i * src_rate / dst_rate`, clamped to the last sample. Equal rates
/// reproduce the input exactly.
pub fn resample(samples: &Vec<i16>, src_rate: u32, dst_rate: u32) -> (out: Vec<i16>)
    requires
        src_rate >= 1,
        dst_rate >= 1,
        samples@.len() >= 1,
        resampled_len(samples@.len() as int, src_rate as int, dst_rate as int) <= usize::MAX,
    ensures
        out@.len() == resampled_len(samples@.len() as int, src_rate as int, dst_rate as int),
        forall|i: int|
            0 <= i < out@.len() ==> out@[i] == samples@[src_index(
                i,
                src_rate as int,
                dst_rate as int,
                samples@.len() as int,
            )],
{
    let n: usize = samples.len();
    let n128: u128 = n as u128;
    let src: u128 = src_rate as u128;
    let dst: u128 = dst_rate as u128;
    proof {
        assert(n128 * dst <= 0xFFFF_FFFF_FFFF_FFFF * 0xFFFF_FFFF) by (nonlinear_arith)
            requires
                n128 <= 0xFFFF_FFFF_FFFF_FFFF,
                dst <= 0xFFFF_FFFF,
                0 <= n128,
                0 <= dst,
        ;
    }
    let out_len128: u128 = (n128 * dst + src - 1) / src;
    let out_len: usize = out_len128 as usize;
    let mut out: Vec<i16> = Vec::new();
    let mut i: usize = 0;
    while i < out_len
        invariant
            n == samples@.len(),
            n >= 1,
            n128 == n as int,
            src == src_rate as int,
            dst == dst_rate as int,
            src >= 1,
            dst >= 1,
            out_len == resampled_len(n as int, src_rate as int, dst_rate as int),
            i <= out_len,
            out@.len() == i,
            forall|j: int|
                0 <= j < i ==> out@[j] == samples@[src_index(
                    j,
                    src_rate as int,
                    dst_rate as int,
                    n as int,
                )],
        decreases out_len - i,
    {
        proof {
            assert((i as u128) * src <= 0xFFFF_FFFF_FFFF_FFFF * 0xFFFF_FFFF) by (nonlinear_arith)
                requires
                    i as u128 <= 0xFFFF_FFFF_FFFF_FFFF,
                    src <= 0xFFFF_FFFF,
                    0 <= i as u128,
                    0 <= src,
            ;
        }
        let pos128: u128 = (i as u128) * src / dst;
        let idx: usize = if pos128 >= n128 {
            n - 1
        } else {
            pos128 as usize
        };
        out.push(samples[idx]);
        i = i + 1;
    }
    out
}

/// Normalize a raw capture into the canonical mono representation at the
/// engine's required rate.
///
/// Zero-length input is rejected with `EmptyBuffer` — the transform never
/// returns an empty success — and any non-empty input succeeds, with the
/// output pinned to `spec_normalized`.
pub fn normalize(raw: RawAudioBuffer) -> (r: Result<NormalizedAudio, PipelineError>)
    requires
        raw.wf(),
        resampled_len(
            raw.frame_count(),
            raw.sample_rate_hz as int,
            TARGET_SAMPLE_RATE_HZ as int,
        ) <= usize::MAX,
    ensures
        raw.samples@.len() == 0 <==> (r matches Err(e) && e == PipelineError::EmptyBuffer),
        raw.samples@.len() > 0 ==> r is Ok,
        r matches Ok(out) ==> {
            &&& out.wf()
            &&& out.samples@.len() == spec_normalized(raw).len()
            &&& forall|i: int|
                0 <= i < out.samples@.len() ==> out.samples@[i] == spec_normalized(raw)[i]
        },
{
    if raw.samples.len() == 0 {
        return Err(PipelineError::EmptyBuffer);
    }
    let mono = mix_to_mono(&raw);
    proof {
        let n = raw.samples@.len() as int;
        let c = raw.channel_count as int;
        lemma_fundamental_div_mod(n, c);
        assert(n / c >= 1) by (nonlinear_arith)
            requires
                n == c * (n / c),
                n >= 1,
                c >= 1,
        ;
    }
    let resampled = resample(&mono, raw.sample_rate_hz, TARGET_SAMPLE_RATE_HZ);
    proof {
        let m = mono@.len() as int;
        let src = raw.sample_rate_hz as int;
        let dst = TARGET_SAMPLE_RATE_HZ as int;
        lemma_mul_inequality(1, m, dst);
        lemma_div_is_ordered(src, m * dst + src - 1, src);
        lemma_div_basics_3(src);
    }
    Ok(NormalizedAudio { samples: resampled })
}

/// Resampling between equal rates is the identity mapping.
proof fn lemma_resample_identity(n: int, d: int)
    requires
        n >= 1,
        d >= 1,
    ensures
        resampled_len(n, d, d) == n,
        forall|i: int| 0 <= i < n ==> src_index(i, d, d, n) == i,
{
    lemma_div_multiples_vanish_fancy(n, d - 1, d);
    lemma_mul_is_commutative(n, d);
    assert((d * n + (d - 1)) / d == n);
    assert(n * d + d - 1 == d * n + (d - 1));
    assert forall|i: int| 0 <= i < n implies src_index(i, d, d, n) == i by {
        lemma_div_by_multiple(i, d);
    }
}

/// On input that is already canonical — mono, at the engine's required
/// rate — normalization is the identity: no sample changes, so amplitude
/// ordering is untouched and the extreme sample values map to the extreme
/// normalized amplitudes (full scale -32768/32768 and 32767/32768).
pub proof fn lemma_normalize_identity_on_canonical_input(raw: RawAudioBuffer)
    requires
        raw.wf(),
        raw.channel_count == 1,
        raw.sample_rate_hz == TARGET_SAMPLE_RATE_HZ,
        raw.samples@.len() >= 1,
    ensures
        spec_normalized(raw).len() == raw.samples@.len(),
        forall|i: int| 0 <= i < raw.samples@.len() ==> spec_normalized(raw)[i] == raw.samples@[i],
{
    let s = raw.samples@;
    let n = s.len() as int;
    lemma_div_basics_2(n);
    assert forall|i: int| 0 <= i < n implies frame_mean(s, 1, i) == s[i] by {
        assert(sum_samples(s, i + 1, i + 1) == 0);
        assert(sum_samples(s, i, i + 1) == s[i]);
        lemma_div_basics_2(s[i] as int);
    }
    lemma_resample_identity(n, TARGET_SAMPLE_RATE_HZ as int);
}

/// Every normalized amplitude lies within full scale: scaled by 1/32768,
/// each sample value is within [-1, 1].
pub proof fn lemma_normalized_amplitude_bounded(raw: RawAudioBuffer)
    requires
        raw.wf(),
    ensures
        forall|i: int|
            0 <= i < spec_normalized(raw).len() ==> -32768 <= #[trigger] spec_normalized(raw)[i]
                <= 32767,
{
    let s = raw.samples@;
    let c = raw.channel_count as int;
    let src = raw.sample_rate_hz as int;
    let dst = TARGET_SAMPLE_RATE_HZ as int;
    let n = s.len() as int;
    lemma_div_basics_4(n, c);
    let m = spec_mono(s, c);
    if m.len() == 0 {
        lemma_basic_div(src - 1, src);
        assert(spec_normalized(raw).len() == 0);
    } else {
        assert forall|i: int|
            0 <= i < spec_normalized(raw).len() implies -32768 <= #[trigger] spec_normalized(
                raw,
            )[i] <= 32767 by {
            let j = src_index(i, src, dst, m.len() as int);
            lemma_mul_nonnegative(i, src);
            lemma_div_basics_4(i * src, dst);
            assert(0 <= j < m.len());
            lemma_frame_mean_bounds(s, c, j);
        }
    }
}

/// Two-channel input reduces to one mean per frame: the mono output has
/// one sample per input frame, each the arithmetic mean of the frame's
/// two channel samples (rounded toward negative infinity).
pub proof fn lemma_stereo_mean(raw: RawAudioBuffer)
    requires
        raw.wf(),
        raw.channel_count == 2,
        raw.sample_rate_hz == TARGET_SAMPLE_RATE_HZ,
        raw.samples@.len() >= 1,
    ensures
        spec_normalized(raw).len() == raw.frame_count(),
        forall|i: int|
            0 <= i < raw.frame_count() ==> spec_normalized(raw)[i] == (raw.samples@[2 * i]
                + raw.samples@[2 * i + 1]) / 2,
{
    let s = raw.samples@;
    let n = s.len() as int;
    let frames = n / 2;
    lemma_fundamental_div_mod(n, 2);
    assert(frames >= 1) by (nonlinear_arith)
        requires
            n == 2 * frames,
            n >= 1,
    ;
    assert forall|i: int| 0 <= i < frames implies frame_mean(s, 2, i) == (s[2 * i] + s[2 * i + 1])
        / 2 by {
        assert(sum_samples(s, 2 * i + 2, 2 * i + 2) == 0);
        assert(sum_samples(s, 2 * i + 1, 2 * i + 2) == s[2 * i + 1]);
        assert(sum_samples(s, 2 * i, 2 * i + 2) == s[2 * i] + s[2 * i + 1]);
    }
    lemma_resample_identity(frames, TARGET_SAMPLE_RATE_HZ as int);
}

} // verus!
