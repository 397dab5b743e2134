//! Conversion of one native sample to a signed 16-bit sample.

use vstd::arithmetic::power2::{
    lemma2_to64, lemma2_to64_rest, lemma_pow2_adds, lemma_pow2_pos, lemma_pow2_strictly_increases,
    lemma_pow2_unfold, pow2,
};
use vstd::bits::lemma_u64_shr_is_div;
use vstd::prelude::*;

verus! {

/// The native sample formats a capture device may report.
#[derive(Clone, Copy, Debug, PartialEq, Eq, Structural)]
pub enum SampleFormat {
    /// 32-bit IEEE float, nominally within [-1.0, 1.0].
    F32,
    /// Signed 16-bit integer.
    I16,
    /// Unsigned 16-bit integer with 32768 as its origin.
    U16,
    /// Any other format; a recording cannot be started on it.
    Unsupported,
}

/// The conversion rules: one for each native format that can be recorded.
#[derive(Clone, Copy, Debug, PartialEq, Eq, Structural)]
pub enum CaptureFormat {
    F32,
    I16,
    U16,
}

impl SampleFormat {
    /// The conversion rule for this format, where there is one.
    pub open spec fn rule(self) -> Option<CaptureFormat> {
        match self {
            SampleFormat::F32 => Some(CaptureFormat::F32),
            SampleFormat::I16 => Some(CaptureFormat::I16),
            SampleFormat::U16 => Some(CaptureFormat::U16),
            SampleFormat::Unsupported => None,
        }
    }

    /// Picks the conversion rule for this format.
    pub fn capture_format(self) -> (r: Option<CaptureFormat>)
        ensures
            r == self.rule(),
    {
        match self {
            SampleFormat::F32 => Some(CaptureFormat::F32),
            SampleFormat::I16 => Some(CaptureFormat::I16),
            SampleFormat::U16 => Some(CaptureFormat::U16),
            SampleFormat::Unsupported => None,
        }
    }

    /// Whether the converter has a rule for this format.
    pub fn is_supported(self) -> (r: bool)
        ensures
            r == self.rule() is Some,
    {
        self.capture_format().is_some()
    }
}

/// A native sample that has a rule for becoming a signed 16-bit sample.
pub trait NativeSample: Copy {
    /// The signed 16-bit value the sample stands for.
    spec fn pcm(self) -> int;

    /// Every sample lands in the signed 16-bit range.
    proof fn pcm_in_range(self)
        ensures
            -32768 <= self.pcm() <= 32767,
    ;

    /// Converts the sample.
    fn to_pcm(self) -> (r: i16)
        ensures
            r as int == self.pcm(),
    ;
}

impl NativeSample for i16 {
    /// A signed 16-bit sample is passed through unchanged.
    open spec fn pcm(self) -> int {
        self as int
    }

    proof fn pcm_in_range(self) {
    }

    fn to_pcm(self) -> (r: i16) {
        self
    }
}

impl NativeSample for u16 {
    /// An unsigned 16-bit sample is moved down by its origin, so that
    /// 32768 becomes 0.
    open spec fn pcm(self) -> int {
        self as int - 32768
    }

    proof fn pcm_in_range(self) {
    }

    fn to_pcm(self) -> (r: i16) {
        let wide: i32 = self as i32 - 32768;
        wide as i16
    }
}

/// A 32-bit float sample, held by its IEEE 754 bit pattern: one sign bit,
/// eight exponent bits, 23 fraction bits.
#[derive(Clone, Copy, Debug, PartialEq, Eq, Structural)]
pub struct F32Bits(pub u32);

/// The largest magnitude a float sample converts to: that of 1.0.
pub const FLOAT_FULL_SCALE: i16 = 32767;

/// The distance between neighbouring floats at the magnitude of `p`, for a
/// float with 24 significant bits whose unit in the last place is 1 below
/// 2^24.
pub open spec fn spacing(p: int) -> int
    decreases p,
{
    if p < 0x100_0000 {
        1
    } else {
        2 * spacing(p / 2)
    }
}

/// The multiple of `unit` nearest to `p`; of two equally near ones, the even
/// multiple.
pub open spec fn round_ties_even(p: int, unit: int) -> int {
    let below = p / unit;
    let rest = p % unit;
    if 2 * rest < unit || (2 * rest == unit && below % 2 == 0) {
        below * unit
    } else {
        (below + 1) * unit
    }
}

/// The significand of a float below 1.0 as an integer of at most 24 bits;
/// the float is `significand / 2^scale`.
pub open spec fn float_significand(exponent: int, fraction: int) -> int {
    if exponent == 0 {
        fraction
    } else {
        0x80_0000 + fraction
    }
}

/// The number of binary places of a float below 1.0.
pub open spec fn float_scale(exponent: int) -> nat {
    if exponent <= 0 {
        149
    } else {
        (150 - exponent) as nat
    }
}

/// The magnitude that a float with these exponent and fraction bits converts
/// to: the float is clamped to 1.0, multiplied by 32767 in float arithmetic,
/// which rounds the product to 24 significant bits, and cut to its integer
/// part. A NaN converts to 0.
pub open spec fn float_magnitude(exponent: int, fraction: int) -> int {
    if exponent == 255 && fraction != 0 {
        0
    } else if exponent >= 127 {
        32767
    } else {
        let product = float_significand(exponent, fraction) * 32767;
        round_ties_even(product, spacing(product)) / (pow2(float_scale(exponent)) as int)
    }
}

impl F32Bits {
    /// Whether the sign bit is set.
    pub open spec fn negative(self) -> bool {
        self.0 >= 0x8000_0000
    }

    /// The eight exponent bits.
    pub open spec fn exponent(self) -> int {
        (self.0 as int / 0x80_0000) % 256
    }

    /// The 23 fraction bits.
    pub open spec fn fraction(self) -> int {
        self.0 as int % 0x80_0000
    }
}

/// The spacing is at least 1 and at most one part in 2^23 of `p`.
proof fn spacing_bounds(p: int)
    requires
        p >= 0,
    ensures
        spacing(p) >= 1,
        p >= 0x100_0000 ==> spacing(p) * 0x80_0000 <= p,
    decreases p,
{
    if p >= 0x100_0000 {
        spacing_bounds(p / 2);
    }
}

/// Rounding moves a number by less than one unit.
proof fn rounding_bounds(p: int, unit: int)
    requires
        p >= 0,
        unit >= 1,
    ensures
        p - unit < round_ties_even(p, unit) <= p + unit,
        round_ties_even(p, unit) >= 0,
{
    let below = p / unit;
    let rest = p % unit;
    assert(p == below * unit + rest && 0 <= rest < unit && below >= 0 && (below + 1) * unit
        == below * unit + unit) by (nonlinear_arith)
        requires
            p >= 0,
            unit >= 1,
            below == p / unit,
            rest == p % unit,
    ;
}

/// The spacing is a power of two.
proof fn spacing_exponent(p: int) -> (k: nat)
    requires
        p >= 0,
    ensures
        spacing(p) == pow2(k),
    decreases p,
{
    lemma2_to64();
    if p < 0x100_0000 {
        0
    } else {
        let k = spacing_exponent(p / 2);
        lemma_pow2_unfold(k + 1);
        k + 1
    }
}

/// Below 1.0 the spacing of the product divides the scale of the float.
proof fn spacing_divides_scale(exponent: int, fraction: int) -> (parts: int)
    requires
        0 <= exponent < 127,
        0 <= fraction < 0x80_0000,
    ensures
        parts >= 1,
        pow2(float_scale(exponent)) == parts * spacing(float_significand(exponent, fraction) * 32767),
        pow2(float_scale(exponent)) >= 0x100_0000,
        float_significand(exponent, fraction) * 32767 < 32767 * pow2(float_scale(exponent)),
{
    let scale = float_scale(exponent);
    let product = float_significand(exponent, fraction) * 32767;
    let whole = pow2(scale) as int;
    lemma2_to64();
    if scale > 24 {
        lemma_pow2_strictly_increases(24, scale);
    }
    spacing_bounds(product);
    let k = spacing_exponent(product);
    assert(spacing(product) <= whole);
    if k > scale {
        lemma_pow2_strictly_increases(scale, k);
    }
    lemma_pow2_adds(k, (scale - k) as nat);
    lemma_pow2_pos((scale - k) as nat);
    pow2((scale - k) as nat) as int
}

/// The magnitude of a converted float is at most that of 1.0.
proof fn magnitude_bounds(exponent: int, fraction: int)
    requires
        0 <= exponent <= 255,
        0 <= fraction < 0x80_0000,
    ensures
        0 <= float_magnitude(exponent, fraction) <= 32767,
{
    if exponent < 127 {
        float_conversion_is_near_exact(exponent, fraction);
        let product = float_significand(exponent, fraction) * 32767;
        let whole = pow2(float_scale(exponent)) as int;
        let parts = spacing_divides_scale(exponent, fraction);
        assert(0 <= product / whole < 32767) by (nonlinear_arith)
            requires
                0 <= product < 32767 * whole,
                whole > 0,
        ;
    }
}

/// Float arithmetic rounds the product before it is cut, so a float below
/// 1.0 converts to the integer part of its exact product with 32767, or to
/// the next integer where the product rounds up to it.
pub proof fn float_conversion_is_near_exact(exponent: int, fraction: int)
    requires
        0 <= exponent < 127,
        0 <= fraction < 0x80_0000,
    ensures
        (float_significand(exponent, fraction) * 32767) / (pow2(float_scale(exponent)) as int)
            <= float_magnitude(exponent, fraction) <= (float_significand(exponent, fraction)
            * 32767) / (pow2(float_scale(exponent)) as int) + 1,
{
    let product = float_significand(exponent, fraction) * 32767;
    let unit = spacing(product);
    let rounded = round_ties_even(product, unit);
    let whole = pow2(float_scale(exponent)) as int;
    let parts = spacing_divides_scale(exponent, fraction);
    spacing_bounds(product);
    let below = product / unit;
    let exact = product / whole;
    assert(below * unit <= product < (below + 1) * unit && exact * whole <= product < (exact + 1)
        * whole) by (nonlinear_arith)
        requires
            product >= 0,
            unit >= 1,
            whole >= 1,
            below == product / unit,
            exact == product / whole,
    ;
    assert(below * unit <= rounded <= (below + 1) * unit);
    // whole is parts * unit: the multiples of whole are multiples of unit
    assert(exact * parts <= below && below + 1 <= (exact + 1) * parts) by (nonlinear_arith)
        requires
            whole == parts * unit,
            unit >= 1,
            parts >= 1,
            below * unit <= product < (below + 1) * unit,
            exact * whole <= product < (exact + 1) * whole,
    ;
    assert(exact * whole <= rounded <= (exact + 1) * whole) by (nonlinear_arith)
        requires
            whole == parts * unit,
            unit >= 1,
            exact * parts <= below,
            below + 1 <= (exact + 1) * parts,
            below * unit <= rounded <= (below + 1) * unit,
    ;
    assert(exact <= rounded / whole <= exact + 1) by (nonlinear_arith)
        requires
            exact * whole <= rounded <= (exact + 1) * whole,
            whole >= 1,
    ;
}

/// Computes the spacing at `p`.
fn spacing_of(p: u64) -> (unit: u64)
    requires
        p < 0x100_0000_0000,
    ensures
        unit == spacing(p as int),
        1 <= unit <= 0x2_0000,
    decreases p,
{
    proof {
        spacing_bounds(p as int);
    }
    if p < 0x100_0000 {
        1
    } else {
        2 * spacing_of(p / 2)
    }
}

impl NativeSample for F32Bits {
    /// A float sample is clamped to [-1.0, 1.0], multiplied by 32767 and cut
    /// to its integer part, towards zero.
    open spec fn pcm(self) -> int {
        if self.negative() {
            -float_magnitude(self.exponent(), self.fraction())
        } else {
            float_magnitude(self.exponent(), self.fraction())
        }
    }

    proof fn pcm_in_range(self) {
        magnitude_bounds(self.exponent(), self.fraction());
    }

    fn to_pcm(self) -> (r: i16) {
        let bits: u32 = self.0;
        let exponent: u32 = (bits >> 23) & 0xff;
        let fraction: u32 = bits & 0x7f_ffff;
        let negative: bool = bits >= 0x8000_0000;
        proof {
            assert(exponent == (bits / 0x80_0000) % 256 && fraction == bits % 0x80_0000) by (bit_vector)
                requires
                    exponent == (bits >> 23) & 0xff,
                    fraction == bits & 0x7f_ffff,
            ;
            magnitude_bounds(exponent as int, fraction as int);
        }
        let magnitude: i16 = if exponent == 255 && fraction != 0 {
            0
        } else if exponent >= 127 {
            FLOAT_FULL_SCALE
        } else {
            let significand: u64 = if exponent == 0 {
                fraction as u64
            } else {
                0x80_0000 + fraction as u64
            };
            let scale: u32 = if exponent == 0 {
                149
            } else {
                150 - exponent
            };
            assert(significand == float_significand(exponent as int, fraction as int));
            assert(scale == float_scale(exponent as int));
            let product: u64 = significand * 32767;
            let unit: u64 = spacing_of(product);
            let below: u64 = product / unit;
            let rest: u64 = product % unit;
            proof {
                rounding_bounds(product as int, unit as int);
                assert(below * unit <= product) by (nonlinear_arith)
                    requires
                        below == product / unit,
                        unit >= 1,
                ;
            }
            let rounded: u64 = if 2 * rest < unit || (2 * rest == unit && below % 2 == 0) {
                below * unit
            } else {
                (below + 1) * unit
            };
            assert(rounded == round_ties_even(product as int, unit as int));
            if scale >= 41 {
                proof {
                    lemma2_to64();
                    lemma_pow2_strictly_increases(40, scale as nat);
                    assert(pow2(40) == 0x100_0000_0000) by {
                        lemma2_to64_rest();
                    }
                    let whole = pow2(scale as nat) as int;
                    assert(rounded as int / whole == 0) by (nonlinear_arith)
                        requires
                            0 <= rounded < whole,
                    ;
                }
                0
            } else {
                proof {
                    lemma_u64_shr_is_div(rounded, scale as u64);
                }
                let whole_part: u64 = rounded >> scale;
                whole_part as i16
            }
        };
        if negative {
            -magnitude
        } else {
            magnitude
        }
    }
}

} // verus!
