//! Mapping of one latency sample to the color of one LED.
//!
//! Measured latencies between zero and the threshold are spread linearly over
//! the hue range from green (hue 80, zero latency) down to red (hue 0, at the
//! threshold): `hue = floor(80 * (threshold - ms) / threshold)`. A sample with
//! no response is dark blue at half brightness; one above the threshold is
//! magenta at a quarter of it, dimmer than every healthy color.
use vstd::prelude::*;
use vstd::arithmetic::div_mod::lemma_div_is_ordered;

verus! {

/// A color as hue, saturation and value, each over the full `u8` range.
#[derive(Clone, Copy, Debug, PartialEq, Eq, Structural)]
pub struct Hsv {
    pub hue: u8,
    pub sat: u8,
    pub val: u8,
}

/// A color as its red, green and blue intensities.
#[derive(Clone, Copy, Debug, PartialEq, Eq, Structural)]
pub struct Rgb {
    pub r: u8,
    pub g: u8,
    pub b: u8,
}

/// Overall brightness of the strip; every color is shown at half of it.
pub const BRIGHTNESS: u8 = 127;

/// Value channel of every sample color but the out-of-range one.
pub const SAMPLE_VAL: u8 = 63;

/// Value channel of the out-of-range color, dimmer than the healthy spectrum.
pub const DIM_VAL: u8 = 31;

/// Hue of a sample without a response (dark blue).
pub const ALARM_HUE: u8 = 170;

/// Hue of a sample slower than the threshold (magenta).
pub const OUT_OF_RANGE_HUE: u8 = 210;

/// Hue of a zero-latency sample (green); the threshold itself maps to hue 0 (red).
pub const BEST_HUE: u8 = 80;

/// Saturation shared by every sample color.
pub const FULL_SAT: u8 = 255;

/// The color reserved for "no response".
pub open spec fn alarm_hsv() -> Hsv {
    Hsv { hue: ALARM_HUE, sat: FULL_SAT, val: SAMPLE_VAL }
}

/// The color of a response slower than the threshold.
pub open spec fn out_of_range_hsv() -> Hsv {
    Hsv { hue: OUT_OF_RANGE_HUE, sat: FULL_SAT, val: DIM_VAL }
}

/// Hue of a measured latency `ms <= max_ms` on the green-to-red spectrum.
pub open spec fn spectrum_hue(ms: nat, max_ms: nat) -> nat
    recommends
        0 < max_ms,
        ms <= max_ms,
{
    (((max_ms - ms) as nat) * (BEST_HUE as nat) / max_ms) as nat
}

/// The color that a sample is shown in, for an unhealthy-latency threshold `max_ms`.
pub open spec fn sample_hsv(sample: Option<u64>, max_ms: u64) -> Hsv {
    match sample {
        None => alarm_hsv(),
        Some(ms) => if ms > max_ms {
            out_of_range_hsv()
        } else {
            Hsv { hue: spectrum_hue(ms as nat, max_ms as nat) as u8, sat: FULL_SAT, val: SAMPLE_VAL }
        },
    }
}

/// What `smart_leds::hsv::hsv2rgb` returns for a color, as (red, green, blue).
pub uninterp spec fn rgb_of_hsv(hue: u8, sat: u8, val: u8) -> (u8, u8, u8);

/// The RGB form of an HSV color, as the LED strip's color conversion gives it.
pub open spec fn to_rgb(c: Hsv) -> Rgb {
    let t = rgb_of_hsv(c.hue, c.sat, c.val);
    Rgb { r: t.0, g: t.1, b: t.2 }
}

/// The RGB color that a sample is shown in.
pub open spec fn sample_rgb(sample: Option<u64>, max_ms: u64) -> Rgb {
    to_rgb(sample_hsv(sample, max_ms))
}

/// Relies on `smart_leds::hsv::hsv2rgb` for the HSV-to-RGB conversion; its
/// result depends on the three channels alone.
#[verifier::external_body]
fn hsv_to_rgb(c: Hsv) -> (r: Rgb)
    ensures
        (r.r, r.g, r.b) == rgb_of_hsv(c.hue, c.sat, c.val),
{
    let o = smart_leds::hsv::hsv2rgb(smart_leds::hsv::Hsv { hue: c.hue, sat: c.sat, val: c.val });
    Rgb { r: o.r, g: o.g, b: o.b }
}

/// The HSV color of a sample: `None` is "no response".
pub fn ms2hsv(sample: Option<u64>, max_ms: u64) -> (r: Hsv)
    requires
        max_ms > 0,
    ensures
        r == sample_hsv(sample, max_ms),
{
    match sample {
        None => Hsv { hue: ALARM_HUE, sat: FULL_SAT, val: BRIGHTNESS / 2 },
        Some(ms) => {
            if ms > max_ms {
                Hsv { hue: OUT_OF_RANGE_HUE, sat: FULL_SAT, val: BRIGHTNESS / 4 }
            } else {
                let span: u128 = (max_ms - ms) as u128;
                assert(span * (BEST_HUE as u128) <= (max_ms as u128) * (BEST_HUE as u128))
                    by (nonlinear_arith)
                    requires span <= max_ms as u128;
                let scaled: u128 = span * (BEST_HUE as u128);
                let hue: u128 = scaled / (max_ms as u128);
                proof {
                    assert(hue <= BEST_HUE as u128) by (nonlinear_arith)
                        requires
                            hue == scaled / (max_ms as u128),
                            scaled <= (max_ms as u128) * 80,
                            max_ms > 0,
                    ;
                    assert(scaled == ((max_ms - ms) as nat) * (BEST_HUE as nat));
                }
                Hsv { hue: hue as u8, sat: FULL_SAT, val: BRIGHTNESS / 2 }
            }
        },
    }
}

/// The RGB color of a sample for the LED strip: `None` is "no response".
pub fn ms2rgb(sample: Option<u64>, max_ms: u64) -> (r: Rgb)
    requires
        max_ms > 0,
    ensures
        r == sample_rgb(sample, max_ms),
{
    hsv_to_rgb(ms2hsv(sample, max_ms))
}

/// For every positive threshold: no response is shown in the alarm color, a
/// zero latency in the best (green) color, anything slower than the threshold
/// in the out-of-range color; the alarm color is never the color of a measured
/// latency, and the out-of-range color is distinct from it and dimmer than
/// every color of the spectrum.
pub proof fn lemma_color_policy(max_ms: u64, d: u64)
    requires
        max_ms > 0,
    ensures
        sample_hsv(None, max_ms) == alarm_hsv(),
        sample_hsv(Some(0), max_ms) == (Hsv { hue: BEST_HUE, sat: FULL_SAT, val: SAMPLE_VAL }),
        sample_hsv(Some(max_ms), max_ms) == (Hsv { hue: 0, sat: FULL_SAT, val: SAMPLE_VAL }),
        d > max_ms ==> sample_hsv(Some(d), max_ms) == out_of_range_hsv(),
        sample_hsv(Some(d), max_ms) != alarm_hsv(),
        out_of_range_hsv() != alarm_hsv(),
        d <= max_ms ==> out_of_range_hsv().val < sample_hsv(Some(d), max_ms).val,
{
    if d <= max_ms {
        lemma_spectrum_hue_bounded(d as nat, max_ms as nat);
    }
    assert((max_ms as nat) * 80 / (max_ms as nat) == 80) by (nonlinear_arith)
        requires max_ms > 0;
}

/// A hue on the spectrum never exceeds the best hue.
proof fn lemma_spectrum_hue_bounded(ms: nat, max_ms: nat)
    requires
        0 < max_ms,
        ms <= max_ms,
    ensures
        spectrum_hue(ms, max_ms) <= BEST_HUE,
{
    assert(((max_ms - ms) as nat) * 80 <= max_ms * 80) by (nonlinear_arith)
        requires ms <= max_ms;
    lemma_div_is_ordered((((max_ms - ms) as nat) * 80) as int, (max_ms * 80) as int, max_ms as int);
    assert(max_ms * 80 / max_ms == 80) by (nonlinear_arith)
        requires max_ms > 0;
}

/// Between zero and the threshold the color only worsens as latency grows:
/// the hue moves monotonically from green towards red.
pub proof fn lemma_color_worsens(max_ms: u64, d1: u64, d2: u64)
    requires
        max_ms > 0,
        d1 <= d2,
        d2 <= max_ms,
    ensures
        sample_hsv(Some(d2), max_ms).hue <= sample_hsv(Some(d1), max_ms).hue,
        sample_hsv(Some(d1), max_ms).sat == sample_hsv(Some(d2), max_ms).sat,
        sample_hsv(Some(d1), max_ms).val == sample_hsv(Some(d2), max_ms).val,
{
    lemma_spectrum_hue_bounded(d1 as nat, max_ms as nat);
    lemma_spectrum_hue_bounded(d2 as nat, max_ms as nat);
    assert(((max_ms - d2) as nat) * 80 <= ((max_ms - d1) as nat) * 80) by (nonlinear_arith)
        requires d1 <= d2, d2 <= max_ms;
    lemma_div_is_ordered(
        (((max_ms - d2) as nat) * 80) as int,
        (((max_ms - d1) as nat) * 80) as int,
        max_ms as int,
    );
}

/// The mapping is a function of its inputs: two calls of `ms2rgb` with the
/// same sample and threshold give the same color.
pub proof fn lemma_map_is_pure(sample: Option<u64>, max_ms: u64, first: Rgb, second: Rgb)
    requires
        first == sample_rgb(sample, max_ms),
        second == sample_rgb(sample, max_ms),
    ensures
        first == second,
{
}

} // verus!
