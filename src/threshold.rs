//! Encoding of fault thresholds and the cold-junction offset into the
//! chip's signed fixed-point register formats.
//!
//! Temperatures are given in microdegrees Celsius, which hold every
//! sixteenth of a degree exactly. A value is scaled to the
//! register's resolution, truncated toward zero and saturated to the width
//! of the register.
use vstd::prelude::*;
use vstd::arithmetic::div_mod::{lemma_div_is_ordered, lemma_fundamental_div_mod};

verus! {

/// Register units per degree of the thermocouple thresholds and the
/// cold-junction offset (a resolution of 0.0625 degrees).
pub const STEPS_PER_DEGREE: i64 = 16;

/// Microdegrees per degree.
pub const MICRO_PER_DEGREE: i64 = 1_000_000;

/// `a / d` rounded toward zero.
pub open spec fn div_toward_zero(a: int, d: int) -> int {
    if a >= 0 {
        a / d
    } else {
        -((-a) / d)
    }
}

/// `x` limited to `lo..=hi`.
pub open spec fn clamp(x: int, lo: int, hi: int) -> int {
    if x < lo {
        lo
    } else if x > hi {
        hi
    } else {
        x
    }
}

/// A temperature in microdegrees as a count of sixteenths of a degree,
/// truncated toward zero.
pub open spec fn sixteenths(microdegrees: int) -> int {
    div_toward_zero(STEPS_PER_DEGREE * microdegrees, MICRO_PER_DEGREE as int)
}

/// The signed 16-bit value of a thermocouple threshold register pair.
pub open spec fn tc_threshold_raw(microdegrees: int) -> int {
    clamp(sixteenths(microdegrees), -32768, 32767)
}

/// The signed 8-bit value of the cold-junction offset register.
pub open spec fn cj_offset_raw(microdegrees: int) -> int {
    clamp(sixteenths(microdegrees), -128, 127)
}

/// The signed 16-bit value carried by a register pair, most significant byte first.
pub open spec fn tc_threshold_value(msb: u8, lsb: u8) -> int {
    let u = 256 * msb + lsb;
    if u >= 32768 {
        u - 65536
    } else {
        u
    }
}

/// `sixteenths` of a temperature given in microdegrees, computed exactly.
fn scale_to_sixteenths(microdegrees: i32) -> (r: i64)
    ensures
        r == sixteenths(microdegrees as int),
{
    let scaled: i64 = microdegrees as i64 * STEPS_PER_DEGREE;
    if scaled >= 0 {
        scaled / MICRO_PER_DEGREE
    } else {
        let magnitude: i64 = -scaled;
        -(magnitude / MICRO_PER_DEGREE)
    }
}

/// Encodes a cold-junction threshold (whole degrees, 1 degree resolution).
/// The register holds the two's complement byte of the value.
pub fn encode_cj_threshold(celsius: i8) -> (r: u8)
    ensures
        r as int == (celsius as int) % 256,
{
    if celsius >= 0 {
        celsius as u8
    } else {
        (celsius as i16 + 256) as u8
    }
}

/// Encodes a thermocouple threshold as its two register bytes, most
/// significant first: the 16-bit two's complement of the temperature in
/// sixteenths of a degree.
pub fn encode_tc_threshold(microdegrees: i32) -> (r: (u8, u8))
    ensures
        256 * r.0 + r.1 == tc_threshold_raw(microdegrees as int) % 65536,
        tc_threshold_value(r.0, r.1) == tc_threshold_raw(microdegrees as int),
{
    let steps: i64 = scale_to_sixteenths(microdegrees);
    let raw: i64 = if steps > 32767 {
        32767
    } else if steps < -32768 {
        -32768
    } else {
        steps
    };
    let pattern: u16 = if raw >= 0 {
        raw as u16
    } else {
        (raw + 65536) as u16
    };
    ((pattern / 256) as u8, (pattern % 256) as u8)
}

/// Encodes a cold-junction offset: the 8-bit two's complement of the offset
/// in sixteenths of a degree.
pub fn encode_cj_offset(microdegrees: i32) -> (r: u8)
    ensures
        r as int == cj_offset_raw(microdegrees as int) % 256,
{
    let steps: i64 = scale_to_sixteenths(microdegrees);
    let raw: i64 = if steps > 127 {
        127
    } else if steps < -128 {
        -128
    } else {
        steps
    };
    if raw >= 0 {
        raw as u8
    } else {
        (raw + 256) as u8
    }
}

proof fn lemma_div_toward_zero_ordered(a: int, b: int, d: int)
    requires
        a <= b,
        0 < d,
    ensures
        div_toward_zero(a, d) <= div_toward_zero(b, d),
{
    if a >= 0 {
        lemma_div_is_ordered(a, b, d);
    } else if b < 0 {
        lemma_div_is_ordered(-b, -a, d);
    } else {
        lemma_div_is_ordered(0, -a, d);
        lemma_div_is_ordered(0, b, d);
    }
}

/// The thermocouple threshold encoding never decreases as the temperature rises.
pub proof fn lemma_tc_threshold_monotonic(lower: i32, upper: i32)
    requires
        lower <= upper,
    ensures
        tc_threshold_raw(lower as int) <= tc_threshold_raw(upper as int),
{
    lemma_div_toward_zero_ordered(16 * lower, 16 * upper, 1_000_000);
}

/// Within the representable range (-2048 to just under 2048 degrees) the
/// encoded threshold stands for the temperature to within one resolution
/// step, truncated toward zero: `|raw / 16 - t| < 1 / 16` degrees, and the
/// encoded value is never farther from zero than `t`.
pub proof fn lemma_tc_threshold_within_step(microdegrees: i32)
    requires
        -2_048_000_000 <= microdegrees < 2_048_000_000,
    ensures
        tc_threshold_raw(microdegrees as int) == sixteenths(microdegrees as int),
        -1_000_000 < 1_000_000 * tc_threshold_raw(microdegrees as int) - 16 * microdegrees < 1_000_000,
        microdegrees >= 0 ==> 1_000_000 * tc_threshold_raw(microdegrees as int) <= 16 * microdegrees,
        microdegrees < 0 ==> 1_000_000 * tc_threshold_raw(microdegrees as int) >= 16 * microdegrees,
{
    let a: int = 16 * microdegrees;
    if a >= 0 {
        lemma_fundamental_div_mod(a, 1_000_000);
        lemma_div_is_ordered(a, 32_767_999_999, 1_000_000);
    } else {
        lemma_fundamental_div_mod(-a, 1_000_000);
        lemma_div_is_ordered(-a, 32_768_000_000, 1_000_000);
    }
}

/// Where the truncated remainder is at most half a step, decoding the
/// encoded threshold gives the temperature back to within half the
/// resolution (0.03125 degrees).
pub proof fn lemma_tc_threshold_within_half_step(microdegrees: i32)
    requires
        -2_048_000_000 <= microdegrees < 2_048_000_000,
        (if microdegrees >= 0 { 16 * microdegrees } else { -16 * microdegrees }) % 1_000_000 <= 500_000,
    ensures
        -500_000 <= 1_000_000 * tc_threshold_raw(microdegrees as int) - 16 * microdegrees <= 500_000,
{
    lemma_tc_threshold_within_step(microdegrees);
    let a: int = 16 * microdegrees;
    if a >= 0 {
        lemma_fundamental_div_mod(a, 1_000_000);
    } else {
        lemma_fundamental_div_mod(-a, 1_000_000);
    }
}

} // verus!
