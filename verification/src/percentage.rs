//! Fixed-point encoding of an analog dial position.
//!
//! A raw sample in `[0, resolution)` is normalized to a fraction in `[0, 1)`
//! held as 16 fractional bits: the `bits` field of a [`Percentage`] stands for
//! the value `bits / 2^16`.

use vstd::arithmetic::div_mod::{
    lemma_div_pos_is_pos, lemma_fundamental_div_mod, lemma_fundamental_div_mod_converse,
    lemma_mod_bound, lemma_multiply_divide_lt,
};
use vstd::arithmetic::mul::lemma_mul_strict_inequality;
use vstd::prelude::*;

verus! {

/// One past the largest representable fraction numerator: a percentage's
/// `bits` field stands for `bits / PERCENTAGE_SCALE`.
pub const PERCENTAGE_SCALE: u32 = 0x10000;

/// The resolution of the device's analog-to-digital converter: every raw
/// sample lies in `[0, ADC_RESOLUTION)`.
pub const ADC_RESOLUTION: u16 = 2048;

/// A fixed-point fraction in `[0, 1)` with 16 fractional bits.
#[derive(Clone, Copy, PartialEq, Eq, Structural, Debug)]
pub struct Percentage {
    /// The fraction's numerator over `2^16`.
    pub bits: u16,
}

/// The 16 fractional bits of `raw / resolution`: the integer quotient of
/// `raw * 2^16` by `resolution`. For `raw < resolution` this is the whole
/// fixed-point quotient, whose integer part is zero.
pub open spec fn spec_encode_percentage(raw: int, resolution: int) -> int {
    (raw * 0x10000) / resolution
}

/// The raw sample a percentage stands for: the least `raw` whose encoding
/// reaches `bits`, that is the quotient `bits * resolution / 2^16` rounded up.
pub open spec fn spec_decode_percentage(bits: int, resolution: int) -> int {
    (bits * resolution + 0xffff) / 0x10000
}

/// The encoding of a raw sample under its resolution never overflows the 16
/// fractional bits: the integer part of `raw / resolution` is zero.
pub proof fn lemma_encode_percentage_in_range(raw: u16, resolution: u16)
    requires
        0 < resolution,
        raw < resolution,
    ensures
        0 <= spec_encode_percentage(raw as int, resolution as int) < 0x10000,
{
    lemma_mul_strict_inequality(raw as int, resolution as int, 0x10000);
    lemma_multiply_divide_lt(raw as int * 0x10000, resolution as int, 0x10000);
    lemma_div_pos_is_pos(raw as int * 0x10000, resolution as int);
}

/// Converts a raw analog sample into the dial-position fraction
/// `raw / resolution`, kept exactly in 16 fractional bits.
pub fn encode_percentage(raw: u16, resolution: u16) -> (r: Percentage)
    requires
        0 < resolution,
        raw < resolution,
    ensures
        r.bits == spec_encode_percentage(raw as int, resolution as int),
{
    proof {
        lemma_encode_percentage_in_range(raw, resolution);
    }
    let bits: u32 = raw as u32 * PERCENTAGE_SCALE / resolution as u32;
    Percentage { bits: bits as u16 }
}

/// Recovers the raw analog sample that [`encode_percentage`] was applied to,
/// assuming the same resolution on both sides.
pub fn decode_percentage(p: Percentage, resolution: u16) -> (r: u16)
    requires
        0 < resolution,
    ensures
        r == spec_decode_percentage(p.bits as int, resolution as int),
{
    proof {
        vstd::arithmetic::mul::lemma_mul_upper_bound(
            p.bits as int,
            0xffff,
            resolution as int,
            0xffff,
        );
        vstd::arithmetic::div_mod::lemma_div_is_ordered(
            p.bits as int * resolution as int + 0xffff,
            0xffffffff,
            0x10000,
        );
    }
    let num: u32 = p.bits as u32 * resolution as u32 + 0xffff;
    let q: u32 = num / PERCENTAGE_SCALE;
    q as u16
}

/// Decoding inverts encoding exactly: for every raw sample under the
/// resolution bound, the encoded fraction stays inside its 16 bits and
/// decodes back to the same sample, so encoding again is stable.
pub proof fn lemma_percentage_round_trip(raw: u16, resolution: u16)
    requires
        0 < resolution,
        raw < resolution,
    ensures
        0 <= spec_encode_percentage(raw as int, resolution as int) < 0x10000,
        spec_decode_percentage(
            spec_encode_percentage(raw as int, resolution as int),
            resolution as int,
        ) == raw as int,
        spec_encode_percentage(
            spec_decode_percentage(
                spec_encode_percentage(raw as int, resolution as int),
                resolution as int,
            ),
            resolution as int,
        ) == spec_encode_percentage(raw as int, resolution as int),
{
    let r = raw as int;
    let res = resolution as int;
    lemma_encode_percentage_in_range(raw, resolution);
    let b = spec_encode_percentage(r, res);
    let m = (r * 0x10000) % res;
    lemma_fundamental_div_mod(r * 0x10000, res);
    lemma_mod_bound(r * 0x10000, res);
    assert(b * res == r * 0x10000 - m) by (nonlinear_arith)
        requires
            r * 0x10000 == res * b + m,
    ;
    let k = 0xffff - m;
    assert(0 <= k < 0x10000);
    lemma_fundamental_div_mod_converse(r * 0x10000 + k, 0x10000, r, k);
}

} // verus!
