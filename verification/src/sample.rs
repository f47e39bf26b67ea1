//! Fixed-point sample model.
//!
//! A sample is an `i64` holding a signal amplitude scaled by
//! [`SAMPLE_SCALE`]: the amplitude `1.0` is `SAMPLE_SCALE`, `-0.5` is
//! `-SAMPLE_SCALE / 2`, and so on. Frames delivered by an audio backend
//! in floating point are converted to this representation (saturating
//! at plus and minus one) before they enter the library.

use vstd::prelude::*;

verus! {

/// The fixed-point unit: this integer stands for the amplitude `1.0`.
pub const SAMPLE_SCALE: i64 = 1_000_000;

/// A sample within the nominal amplitude range `[-1.0, 1.0]`.
pub open spec fn sample_in_range(s: int) -> bool {
    -(SAMPLE_SCALE as int) <= s <= SAMPLE_SCALE as int
}

/// Every sample of the sequence is within the nominal range.
pub open spec fn frame_in_range(frame: Seq<i64>) -> bool {
    forall|i: int| 0 <= i < frame.len() ==> sample_in_range(#[trigger] frame[i] as int)
}

/// Magnitude of a mathematical integer.
pub open spec fn abs_of(s: int) -> int {
    if s >= 0 {
        s
    } else {
        -s
    }
}

/// The 16-bit conversion of a fixed-point sample: multiply by `32767`,
/// truncate toward zero, and saturate at the bounds of `i16` so that an
/// out-of-range sample cannot wrap.
pub open spec fn sample_to_i16_val(s: int) -> int {
    let q = (abs_of(s) * 32767) / (SAMPLE_SCALE as int);
    if s >= 0 {
        if q > 32767 {
            32767
        } else {
            q
        }
    } else {
        if q > 32768 {
            -32768
        } else {
            -q
        }
    }
}

/// The 32-bit conversion of a fixed-point sample: multiply by the
/// 32-bit signed maximum, truncate toward zero, and saturate at the
/// bounds of `i32`.
pub open spec fn sample_to_i32_val(s: int) -> int {
    let q = (abs_of(s) * 2_147_483_647) / (SAMPLE_SCALE as int);
    if s >= 0 {
        if q > 2_147_483_647 {
            2_147_483_647
        } else {
            q
        }
    } else {
        if q > 2_147_483_648 {
            -2_147_483_648
        } else {
            -q
        }
    }
}

/// Clamped magnitude of a sample: anything beyond twice the scale is
/// already past both saturation bounds, so capping there changes no
/// conversion result.
fn magnitude_capped(s: i64) -> (a: u64)
    ensures
        a == if abs_of(s as int) > 2_000_000 {
            2_000_000int
        } else {
            abs_of(s as int)
        },
{
    if s >= 0 {
        if s > 2_000_000 {
            2_000_000
        } else {
            s as u64
        }
    } else if s < -2_000_000 {
        2_000_000
    } else {
        (-s) as u64
    }
}

/// A capped magnitude saturates exactly when the real one does: the
/// scaled quotient of the capped magnitude and of the real one lie on
/// the same side of any bound up to `65534`.
proof fn lemma_cap_preserves_saturation(a: int, factor: int)
    requires
        a > 2_000_000,
        32767 <= factor <= 2_147_483_647,
    ensures
        (a * factor) / (SAMPLE_SCALE as int) >= (2_000_000 * factor) / (SAMPLE_SCALE as int),
        (2_000_000 * factor) / (SAMPLE_SCALE as int) == 2 * factor,
{
    vstd::arithmetic::mul::lemma_mul_inequality(2_000_000, a, factor);
    vstd::arithmetic::div_mod::lemma_div_is_ordered(
        2_000_000 * factor,
        a * factor,
        SAMPLE_SCALE as int,
    );
    vstd::arithmetic::div_mod::lemma_div_multiples_vanish(2 * factor, SAMPLE_SCALE as int);
    assert(2_000_000 * factor == (2 * factor) * (SAMPLE_SCALE as int))
        by (nonlinear_arith);
}

/// Convert one fixed-point sample to a signed 16-bit integer.
pub fn sample_to_i16(s: i64) -> (r: i16)
    ensures
        r as int == sample_to_i16_val(s as int),
{
    let a = magnitude_capped(s);
    let q: u64 = (a * 32767) / 1_000_000;
    proof {
        if abs_of(s as int) > 2_000_000 {
            lemma_cap_preserves_saturation(abs_of(s as int), 32767);
        }
    }
    if s >= 0 {
        if q > 32767 {
            32767
        } else {
            q as i16
        }
    } else {
        if q >= 32768 {
            -32768
        } else {
            -(q as i16)
        }
    }
}

/// Convert one fixed-point sample to a signed 32-bit integer.
pub fn sample_to_i32(s: i64) -> (r: i32)
    ensures
        r as int == sample_to_i32_val(s as int),
{
    let a = magnitude_capped(s);
    let q: u64 = (a * 2_147_483_647) / 1_000_000;
    proof {
        if abs_of(s as int) > 2_000_000 {
            lemma_cap_preserves_saturation(abs_of(s as int), 2_147_483_647);
        }
    }
    if s >= 0 {
        if q > 2_147_483_647 {
            2_147_483_647
        } else {
            q as i32
        }
    } else {
        if q > 2_147_483_648 {
            -2_147_483_648
        } else {
            let m: i64 = -(q as i64);
            m as i32
        }
    }
}

} // verus!
