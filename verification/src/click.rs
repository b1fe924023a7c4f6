//! The percussive click waveform, synthesized once at startup.
//!
//! White-noise samples run through a one-pole low-pass filter
//! (`filtered = 0.85 * previous + 0.15 * raw`), then a quadratic decay
//! envelope and a gain of 3 are applied. Amplitudes are fixed-point:
//! one amplitude unit is `AMPLITUDE_SCALE` steps, and a raw noise
//! sample in `[-1, 1)` arrives offset into `[0, 2 * AMPLITUDE_SCALE)`.
//! An output sample is `(filtered - AMPLITUDE_SCALE) * 3 * (n - i)^2`,
//! so its value in amplitude units is the sample divided by
//! `AMPLITUDE_SCALE * n^2`.

use vstd::prelude::*;
use crate::random_source::rand_u64_below;

verus! {

/// Fixed-point steps per amplitude unit.
pub const AMPLITUDE_SCALE: u64 = 1_000_000;

/// Samples per second of the synthesized click.
pub const CLICK_SAMPLE_RATE: u64 = 44_100;

/// Length of the click in milliseconds.
pub const CLICK_DURATION_MS: u64 = 20;

/// Number of samples of the click: the sample rate over one second,
/// scaled to the click's duration.
pub const CLICK_SAMPLE_COUNT: usize = 882;

/// One step of the low-pass filter, on offset fixed-point samples.
pub open spec fn filter_step(prev: int, raw: int) -> int {
    (prev * 85 + raw * 15) / 100
}

/// The filter state after the first `k` raw samples; it starts at
/// rest (zero amplitude, which the offset encoding holds as the scale).
pub open spec fn filter_state(raws: Seq<int>, k: int) -> int
    decreases k,
{
    if k <= 0 {
        AMPLITUDE_SCALE as int
    } else {
        filter_step(filter_state(raws, k - 1), raws[k - 1])
    }
}

/// Output sample `i` of a click of `n` raw samples: the filtered noise
/// re-centered, under the quadratic decay envelope and the gain of 3.
pub open spec fn click_sample(raws: Seq<int>, i: int) -> int {
    (filter_state(raws, i + 1) - AMPLITUDE_SCALE as int) * 3 * (raws.len() - i) * (raws.len() - i)
}

/// Synthesizes the click waveform from offset raw noise samples.
pub fn synthesize_click(raws: &Vec<u64>) -> (out: Vec<i64>)
    requires
        raws.len() <= 10_000,
        forall|j: int| 0 <= j < raws.len() ==> #[trigger] raws[j] < 2_000_000,
    ensures
        out.len() == raws.len(),
        forall|i: int|
            0 <= i < raws.len() ==> #[trigger] out[i] == click_sample(
                raws@.map_values(|r: u64| r as int),
                i,
            ),
        forall|i: int|
            0 <= i < raws.len() ==> -300_000_000_000_000 <= #[trigger] out[i]
                <= 300_000_000_000_000,
{
    let ghost rv = raws@.map_values(|r: u64| r as int);
    let n = raws.len();
    let mut out: Vec<i64> = Vec::new();
    let mut state: u64 = AMPLITUDE_SCALE;
    for i in 0..n
        invariant
            n == raws.len(),
            n <= 10_000,
            rv == raws@.map_values(|r: u64| r as int),
            forall|j: int| 0 <= j < raws.len() ==> #[trigger] raws[j] < 2_000_000,
            state == filter_state(rv, i as int),
            state <= 2_000_000,
            out.len() == i,
            forall|j: int| 0 <= j < i ==> #[trigger] out[j] == click_sample(rv, j),
            forall|j: int|
                0 <= j < i ==> -300_000_000_000_000 <= #[trigger] out[j]
                    <= 300_000_000_000_000,
    {
        state = (state * 85 + raws[i] * 15) / 100;
        let centered: i64 = state as i64 - AMPLITUDE_SCALE as i64;
        let gained: i64 = centered * 3;
        let dec: i64 = (n - i) as i64;
        assert(-30_000_000_000 <= gained * dec <= 30_000_000_000) by (nonlinear_arith)
            requires
                -3_000_000 <= gained <= 3_000_000,
                0 <= dec <= 10_000,
        ;
        let once = gained * dec;
        assert(-300_000_000_000_000 <= once * dec <= 300_000_000_000_000) by (nonlinear_arith)
            requires
                -30_000_000_000 <= once <= 30_000_000_000,
                0 <= dec <= 10_000,
        ;
        out.push(once * dec);
    }
    out
}

/// Draws fresh noise and synthesizes the click waveform played on each
/// row crossing. The noise is random, so only the length and the
/// amplitude range can be promised here; `synthesize_click` carries
/// the exact sample contract for given noise.
pub fn make_click_waveform() -> (out: Vec<i64>)
    ensures
        out.len() == CLICK_SAMPLE_COUNT,
        forall|i: int|
            0 <= i < out.len() ==> -300_000_000_000_000 <= #[trigger] out[i]
                <= 300_000_000_000_000,
{
    let mut raws: Vec<u64> = Vec::new();
    for k in 0..CLICK_SAMPLE_COUNT
        invariant
            raws.len() == k,
            forall|j: int| 0 <= j < k ==> #[trigger] raws[j] < 2_000_000,
    {
        let r = rand_u64_below(2_000_000);
        raws.push(r);
    }
    synthesize_click(&raws)
}

} // verus!
