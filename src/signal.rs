//! Synthetic spectrum and IQ samples.
//!
//! Randomness enters only as draws: a `u32` draw `d` stands for the fraction
//! `d / 2^32` of `[0, 1)`. Every generator here is a plain function of its
//! draws, so that a fixed source gives exact, checkable output.

use vstd::prelude::*;
use crate::params::clamp;

verus! {

/// Bins in one spectrum frame.
pub const SPECTRUM_BINS: usize = 512;
/// Full scale of powers and magnitudes: 1.0 is this many units.
pub const FULL_SCALE: u32 = 1_000_000;
/// IQ samples produced at the moment streaming starts.
pub const START_BATCH_LEN: usize = 100;
/// IQ samples produced on every tick while streaming.
pub const TICK_BATCH_LEN: usize = 20;
/// Draws that one start batch consumes: two per sample.
pub const START_DRAWS: usize = 200;
/// Draws that one tick consumes: one per bin, then three per sample.
pub const TICK_DRAWS: usize = 572;
/// Span of a uniform phase, in microradians: every value below it is below
/// 2π.
pub const TURN_MICRORAD: u32 = 6_283_186;
/// Number of distinct draws, 2^32.
pub const DRAW_RANGE: u64 = 4_294_967_296;

/// One complex sample in polar form: `magnitude` in millionths of full
/// scale, `phase` in microradians.
#[derive(Clone, Copy, Debug, PartialEq, Eq, Structural)]
pub struct IqSample {
    pub magnitude: u32,
    pub phase: u32,
}

/// The value in `[0, span)` that a draw selects: `floor(d * span / 2^32)`.
pub open spec fn scaled(d: u32, span: int) -> int {
    (d as int * span) / (DRAW_RANGE as int)
}

/// Computes `scaled`; the result lies below `span`.
pub fn scale_draw(d: u32, span: u32) -> (r: u32)
    ensures
        r as int == scaled(d, span as int),
        span > 0 ==> r < span,
{
    proof {
        assert(d as int * span as int <= u32::MAX as int * u32::MAX as int) by (nonlinear_arith)
            requires d <= u32::MAX, span <= u32::MAX;
        assert(d as int * span as int <= (DRAW_RANGE - 1) * span as int) by (nonlinear_arith)
            requires d as int <= DRAW_RANGE - 1, span >= 0;
        if span > 0 {
            assert((d as int * span as int) / (DRAW_RANGE as int) < span as int) by (nonlinear_arith)
                requires d as int * span as int <= (DRAW_RANGE - 1) * span as int, span > 0;
        }
        assert((d as int * span as int) / (DRAW_RANGE as int) <= span as int) by (nonlinear_arith)
            requires d as int * span as int <= (DRAW_RANGE - 1) * span as int, span >= 0;
    }
    let p: u64 = d as u64 * span as u64;
    (p / DRAW_RANGE) as u32
}

/// `|a - b|`.
pub open spec fn distance(a: int, b: int) -> int {
    if a >= b {
        a - b
    } else {
        b - a
    }
}

/// The noise-free power of bin `index`, in millionths.
///
/// A bin sits at `index / 512` of the display, and the tuned centre at
/// `frequency_hz / 10^9`. Both are compared on a scale where the display is
/// `512 * 10^9` wide: a peak of 0.7 within 0.05 of the centre, one of 0.5
/// within 0.03 of the centre plus 0.1, and one of 0.3 within 0.02 of 0.8.
pub open spec fn bin_signal(index: int, frequency_hz: int) -> int {
    let at = index * 1_000_000_000;
    let centre = 512 * frequency_hz;
    (if distance(at, centre) < 25_600_000_000 { 700_000int } else { 0int })
        + (if distance(at, centre + 51_200_000_000) < 15_360_000_000 { 500_000int } else { 0int })
        + (if distance(at, 409_600_000_000) < 10_240_000_000 { 300_000int } else { 0int })
}

/// Uniform noise in `[-0.025, 0.025)`, in millionths.
pub open spec fn bin_noise(d: u32) -> int {
    scaled(d, 50_000) - 25_000
}

/// The power of bin `index`, in millionths: signal plus noise, limited to
/// `[0, 1]`.
pub open spec fn bin_power(index: int, frequency_hz: int, d: u32) -> int {
    clamp(bin_signal(index, frequency_hz) + bin_noise(d), 0, FULL_SCALE as int)
}

/// One sample of the batch made when streaming starts: phase uniform in
/// `[0, 2π)`, magnitude uniform in `[0.5, 1.0)`.
pub open spec fn start_sample(phase_draw: u32, magnitude_draw: u32) -> IqSample {
    IqSample {
        magnitude: (500_000 + scaled(magnitude_draw, 500_000)) as u32,
        phase: scaled(phase_draw, TURN_MICRORAD as int) as u32,
    }
}

/// One sample of a tick: magnitude `0.8 + uniform[0, 0.2)`, phase
/// `uniform[0, 2π) + uniform[0, 0.1)`.
pub open spec fn tick_sample(phase_noise_draw: u32, magnitude_draw: u32, phase_draw: u32) -> IqSample {
    IqSample {
        magnitude: (800_000 + scaled(magnitude_draw, 200_000)) as u32,
        phase: (scaled(phase_draw, TURN_MICRORAD as int) + scaled(phase_noise_draw, 100_000)) as u32,
    }
}

/// The spectrum frame that the draws `d` give at `frequency_hz`.
pub open spec fn spectrum_frame(frequency_hz: int, d: Seq<u32>) -> Seq<u32> {
    Seq::new(SPECTRUM_BINS as nat, |i: int| bin_power(i, frequency_hz, d[i]) as u32)
}

/// The start batch that the draws `d` give, two draws per sample.
pub open spec fn start_batch(d: Seq<u32>) -> Seq<IqSample> {
    Seq::new(START_BATCH_LEN as nat, |i: int| start_sample(d[2 * i], d[2 * i + 1]))
}

/// The tick batch that the draws `d` give, three draws per sample.
pub open spec fn tick_batch(d: Seq<u32>) -> Seq<IqSample> {
    Seq::new(
        TICK_BATCH_LEN as nat,
        |i: int| tick_sample(d[3 * i], d[3 * i + 1], d[3 * i + 2]),
    )
}

/// Computes `bin_power`.
pub fn spectrum_bin(index: usize, frequency_hz: u64, d: u32) -> (r: u32)
    ensures
        r as int == bin_power(index as int, frequency_hz as int, d),
        r <= FULL_SCALE,
{
    let at: u128 = index as u128 * 1_000_000_000;
    let centre: u128 = 512 * frequency_hz as u128;
    let main_peak: u64 = if abs_diff(at, centre) < 25_600_000_000 { 700_000 } else { 0 };
    let side_peak: u64 = if abs_diff(at, centre + 51_200_000_000) < 15_360_000_000 {
        500_000
    } else {
        0
    };
    let background: u64 = if abs_diff(at, 409_600_000_000) < 10_240_000_000 {
        300_000
    } else {
        0
    };
    let raised: u64 = main_peak + side_peak + background + scale_draw(d, 50_000) as u64;
    if raised < 25_000 {
        0
    } else if raised - 25_000 > FULL_SCALE as u64 {
        FULL_SCALE
    } else {
        (raised - 25_000) as u32
    }
}

/// Computes `distance`.
fn abs_diff(a: u128, b: u128) -> (r: u128)
    ensures
        r as int == distance(a as int, b as int),
{
    if a >= b {
        a - b
    } else {
        b - a
    }
}

/// Computes `start_sample`.
pub fn make_start_sample(phase_draw: u32, magnitude_draw: u32) -> (r: IqSample)
    ensures
        r == start_sample(phase_draw, magnitude_draw),
        500_000 <= r.magnitude < FULL_SCALE,
{
    IqSample {
        magnitude: 500_000 + scale_draw(magnitude_draw, 500_000),
        phase: scale_draw(phase_draw, TURN_MICRORAD),
    }
}

/// Computes `tick_sample`.
pub fn make_tick_sample(phase_noise_draw: u32, magnitude_draw: u32, phase_draw: u32) -> (r: IqSample)
    ensures
        r == tick_sample(phase_noise_draw, magnitude_draw, phase_draw),
        800_000 <= r.magnitude < FULL_SCALE,
{
    IqSample {
        magnitude: 800_000 + scale_draw(magnitude_draw, 200_000),
        phase: scale_draw(phase_draw, TURN_MICRORAD) + scale_draw(phase_noise_draw, 100_000),
    }
}

/// A scaled draw lies in `[0, span)`.
pub proof fn scaled_below(d: u32, span: int)
    requires
        span > 0,
    ensures
        0 <= scaled(d, span) < span,
{
    assert(d as int * span <= (DRAW_RANGE - 1) * span) by (nonlinear_arith)
        requires d as int <= DRAW_RANGE - 1, span > 0;
    assert(0 <= (d as int * span) / (DRAW_RANGE as int) < span) by (nonlinear_arith)
        requires d as int * span <= (DRAW_RANGE - 1) * span, span > 0, d >= 0;
}

} // verus!
