//! Hardware volume scaling between raw device bytes and percentages.
//!
//! The device's raw volume scale is inverted: byte `0x00` is full
//! loudness and byte `0x70` is silence. Raw values outside that range
//! are clamped before use rather than rejected.

use vstd::prelude::*;

verus! {

/// Raw byte for full loudness (the low end of the inverted scale).
pub const VOLUME_MAX: u8 = 0x00;

/// Raw byte for silence (the high end of the inverted scale).
pub const VOLUME_MIN: u8 = 0x70;

/// A raw hardware volume clamped into the device's `[0x00, 0x70]` range.
pub open spec fn spec_clamp_raw(value: int) -> int {
    if value < 0 {
        0
    } else if value > 0x70 {
        0x70
    } else {
        value
    }
}

/// Percentage a raw hardware volume stands for: linear inverse scaling
/// of the clamped raw value, with floor division. `0x00` maps to 100,
/// `0x70` maps to 0.
pub open spec fn spec_volume_percent(value: int) -> int {
    (0x70 - spec_clamp_raw(value)) * 100 / 0x70
}

/// Raw payload byte sent for a requested percentage: the inverse
/// scaling, biased down by one before clamping. The bias matches what
/// the hardware expects and deliberately makes this *not* the exact
/// inverse of `spec_volume_percent`.
pub open spec fn spec_volume_payload(percent: int) -> int {
    spec_clamp_raw(0x70 - percent * 0x70 / 100 - 1)
}

/// Percentage shown for a raw hardware volume byte.
pub fn convert_volume_to_percent(value: u8) -> (r: u32)
    ensures
        r == spec_volume_percent(value as int),
        r <= 100,
{
    let val: u32 = if value > VOLUME_MIN {
        VOLUME_MIN as u32
    } else {
        value as u32
    };
    (VOLUME_MIN as u32 - val) * 100 / VOLUME_MIN as u32
}

/// Raw payload byte sent to select the given volume percentage.
pub fn convert_volume_to_payload(value: u8) -> (r: u8)
    requires
        value <= 100,
    ensures
        r == spec_volume_payload(value as int),
        r <= VOLUME_MIN,
{
    proof {
        vstd::arithmetic::div_mod::lemma_div_is_ordered(
            value as int * 0x70,
            100int * 0x70,
            100,
        );
    }
    let scaled: u32 = VOLUME_MIN as u32 - (value as u32) * (VOLUME_MIN as u32) / 100;
    if scaled == 0 {
        0
    } else {
        (scaled - 1) as u8
    }
}

/// The endpoints of the percentage scale: full loudness is 100%,
/// silence is 0%.
pub proof fn lemma_volume_percent_endpoints()
    ensures
        spec_volume_percent(0x00) == 100,
        spec_volume_percent(0x70) == 0,
{
}

/// Raising the raw value never raises the displayed percentage: the
/// scaling is monotonically non-increasing over the whole byte range.
pub proof fn lemma_volume_percent_monotone(a: int, b: int)
    requires
        a <= b,
    ensures
        spec_volume_percent(b) <= spec_volume_percent(a),
{
    let ca = spec_clamp_raw(a);
    let cb = spec_clamp_raw(b);
    vstd::arithmetic::div_mod::lemma_div_is_ordered((0x70 - cb) * 100, (0x70 - ca) * 100, 0x70);
}

/// A raw value outside the hardware range scales exactly as its clamped
/// value does.
pub proof fn lemma_volume_percent_clamps(value: int)
    ensures
        spec_volume_percent(value) == spec_volume_percent(spec_clamp_raw(value)),
{
}

} // verus!
