//! Software volume control.
//!
//! The volume is an integer in `[0, MAX_VOLUME]`; a sample is multiplied by
//! `volume / VOLUME_BENCHMARK`, so the benchmark volume leaves it unchanged.

use crate::frame::AudioFrame;
use vstd::prelude::*;

verus! {

/// The volume at start-up.
pub const DEFAULT_VOLUME: i16 = 50;

/// How much one step up or down changes the volume.
pub const VOLUME_STEP: i16 = 10;

/// The loudest volume.
pub const MAX_VOLUME: i16 = 5000;

/// The volume that leaves samples unchanged.
pub const VOLUME_BENCHMARK: i16 = 50;

/// Division that rounds toward zero, as Rust's integer division does.
pub open spec fn div_toward_zero(m: int, d: int) -> int {
    if m >= 0 {
        m / d
    } else {
        -((-m) / d)
    }
}

/// Clamps into the range of `i16`.
pub open spec fn clamp_i16(x: int) -> int {
    if x < i16::MIN {
        i16::MIN as int
    } else if x > i16::MAX {
        i16::MAX as int
    } else {
        x
    }
}

/// A sample scaled by `volume / VOLUME_BENCHMARK`, saturated to `i16`.
pub open spec fn scaled_sample(s: int, volume: int) -> int {
    clamp_i16(div_toward_zero(s * volume, VOLUME_BENCHMARK as int))
}

pub open spec fn valid_volume(v: int) -> bool {
    0 <= v <= MAX_VOLUME
}

/// `after` is `before` with every sample scaled to `volume`, and nothing
/// else changed.
pub open spec fn volume_applied(before: AudioFrame, after: AudioFrame, volume: int) -> bool {
    &&& after.samples@.len() == before.samples@.len()
    &&& forall|i: int|
        0 <= i < before.samples@.len() ==> #[trigger] after.samples@[i] == scaled_sample(
            before.samples@[i] as int,
            volume,
        )
    &&& after.pts_millis == before.pts_millis
    &&& after.format == before.format
    &&& after.sample_rate == before.sample_rate
    &&& after.channels == before.channels
    &&& after.channel_layout == before.channel_layout
}

/// The volume one step up, capped at the maximum.
pub fn volume_up(volume: i16) -> (r: i16)
    requires
        valid_volume(volume as int),
    ensures
        r == (if volume + VOLUME_STEP > MAX_VOLUME { MAX_VOLUME as int } else { volume + VOLUME_STEP }),
        valid_volume(r as int),
{
    if volume > MAX_VOLUME - VOLUME_STEP {
        MAX_VOLUME
    } else {
        volume + VOLUME_STEP
    }
}

/// The volume one step down, floored at zero.
pub fn volume_down(volume: i16) -> (r: i16)
    requires
        valid_volume(volume as int),
    ensures
        r == (if volume < VOLUME_STEP { 0 } else { volume - VOLUME_STEP }),
        valid_volume(r as int),
{
    if volume < VOLUME_STEP {
        0
    } else {
        volume - VOLUME_STEP
    }
}

/// Clamps any requested volume into `[0, MAX_VOLUME]`.
pub fn clamp_volume(volume: i64) -> (r: i16)
    ensures
        r == (if volume < 0 { 0 } else if volume > MAX_VOLUME { MAX_VOLUME as int } else { volume as int }),
        valid_volume(r as int),
{
    if volume < 0 {
        0
    } else if volume > MAX_VOLUME as i64 {
        MAX_VOLUME
    } else {
        volume as i16
    }
}

/// One sample at the given volume.
pub fn scale_sample(sample: i16, volume: i16) -> (r: i16)
    requires
        valid_volume(volume as int),
    ensures
        r == scaled_sample(sample as int, volume as int),
{
    assert(-32768 * 5000 <= sample * volume <= 32767 * 5000) by (nonlinear_arith)
        requires
            -32768 <= sample <= 32767,
            0 <= volume <= 5000,
    ;
    let m: i64 = sample as i64 * volume as i64;
    let q: i64 = if m >= 0 {
        m / (VOLUME_BENCHMARK as i64)
    } else {
        -((-m) / (VOLUME_BENCHMARK as i64))
    };
    if q < i16::MIN as i64 {
        i16::MIN
    } else if q > i16::MAX as i64 {
        i16::MAX
    } else {
        q as i16
    }
}

/// Applies the volume to every sample of a frame; nothing else changes.
pub fn apply_volume(frame: &mut AudioFrame, volume: i16)
    requires
        valid_volume(volume as int),
    ensures
        volume_applied(*old(frame), *final(frame), volume as int),
{
    let n = frame.samples.len();
    let mut i: usize = 0;
    while i < n
        invariant
            n == old(frame).samples@.len(),
            i <= n,
            frame.samples@.len() == n,
            forall|j: int|
                0 <= j < i ==> #[trigger] frame.samples@[j] == scaled_sample(
                    old(frame).samples@[j] as int,
                    volume as int,
                ),
            forall|j: int| i <= j < n ==> #[trigger] frame.samples@[j] == old(frame).samples@[j],
            frame.pts_millis == old(frame).pts_millis,
            frame.format == old(frame).format,
            frame.sample_rate == old(frame).sample_rate,
            frame.channels == old(frame).channels,
            frame.channel_layout == old(frame).channel_layout,
            valid_volume(volume as int),
        decreases n - i,
    {
        let s = scale_sample(frame.samples[i], volume);
        frame.samples.set(i, s);
        i = i + 1;
    }
}

/// At volume zero every sample is silent, whatever it was.
pub proof fn lemma_mute(sample: i16)
    ensures
        scaled_sample(sample as int, 0) == 0,
{
    assert(sample as int * 0 == 0);
}

/// At the benchmark volume every sample is unchanged.
pub proof fn lemma_benchmark_identity(sample: i16)
    ensures
        scaled_sample(sample as int, VOLUME_BENCHMARK as int) == sample,
{
    let s = sample as int;
    if s >= 0 {
        vstd::arithmetic::div_mod::lemma_div_multiples_vanish(s, 50);
        assert(s * 50 == 50 * s) by (nonlinear_arith);
    } else {
        vstd::arithmetic::div_mod::lemma_div_multiples_vanish(-s, 50);
        assert(-(s * 50) == 50 * (-s)) by (nonlinear_arith);
    }
}

} // verus!
