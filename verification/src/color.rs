//! Colours, and what becomes of them on the way to the image.

use vstd::prelude::*;
use vstd::arithmetic::div_mod::lemma_basic_div;
use vstd::arithmetic::div_mod::lemma_div_is_ordered_by_denominator;
use vstd::arithmetic::div_mod::lemma_div_multiples_vanish_quotient;
use vstd::arithmetic::power2::lemma2_to64;
use vstd::arithmetic::power2::lemma_pow2_adds;
use vstd::arithmetic::power2::lemma_pow2_pos;
use vstd::arithmetic::power2::lemma_pow2_strictly_increases;
use vstd::arithmetic::power2::pow2;
use vstd::bits::lemma_u32_shr_is_div;
use crate::scalar::{Scalar, HIDDEN_BIT, INFINITY_BITS, ONE_BITS, SIGN_BIT};
use crate::scalar::{lemma_magnitude_at_least_zero, lemma_magnitude_grows, magnitude_of};
use crate::vec3::Vec3;

verus! {

/// A colour: red, green and blue in `x`, `y` and `z`.
pub type Color = Vec3;

/// Black, the colour of a path that carries no light.
pub open spec fn spec_black() -> Color {
    Vec3 { x: Scalar { bits: 0 }, y: Scalar { bits: 0 }, z: Scalar { bits: 0 } }
}

/// White, the attenuation of a surface that absorbs nothing.
pub open spec fn spec_white() -> Color {
    Vec3 { x: Scalar { bits: ONE_BITS }, y: Scalar { bits: ONE_BITS }, z: Scalar { bits: ONE_BITS } }
}

/// The bit pattern of 0.5.
pub const HALF_BITS: u32 = 0x3f00_0000;

/// The bit pattern of 0.7.
pub const SEVEN_TENTHS_BITS: u32 = 0x3f33_3333;

/// The blue of the sky overhead: half red, seven tenths green, all blue.
pub open spec fn spec_sky_blue() -> Color {
    Vec3 {
        x: Scalar { bits: HALF_BITS },
        y: Scalar { bits: SEVEN_TENTHS_BITS },
        z: Scalar { bits: ONE_BITS },
    }
}

/// The blue of the sky overhead. Towards the horizon the sky fades to
/// white.
#[verifier::when_used_as_spec(spec_sky_blue)]
pub fn sky_blue() -> (c: Color)
    ensures
        c == spec_sky_blue(),
{
    Vec3::new(Scalar::from_bits(HALF_BITS), Scalar::from_bits(SEVEN_TENTHS_BITS), Scalar::one())
}

/// Black.
#[verifier::when_used_as_spec(spec_black)]
pub fn black() -> (c: Color)
    ensures
        c == spec_black(),
{
    Vec3::new(Scalar::zero(), Scalar::zero(), Scalar::zero())
}

/// White.
#[verifier::when_used_as_spec(spec_white)]
pub fn white() -> (c: Color)
    ensures
        c == spec_white(),
{
    Vec3::new(Scalar::one(), Scalar::one(), Scalar::one())
}

/// The bit pattern of 0.999, the brightest a channel gets.
pub const CHANNEL_MAX_BITS: u32 = 0x3f7f_be77;

/// The smallest exponent bits of a number that reaches 1/256.
pub const FIRST_LEVEL_EXPONENT: u32 = 119;

/// A channel brought into the range from 0 to 0.999, times 2^149.
pub open spec fn clamped_channel(c: Scalar) -> int {
    let top = (Scalar { bits: CHANNEL_MAX_BITS }).scaled();
    if c.scaled() < 0 {
        0
    } else if c.scaled() > top {
        top
    } else {
        c.scaled()
    }
}

/// The level from 0 to 255 of a channel: the channel is brought into the
/// range from 0 to 0.999, multiplied by 256 and rounded down. A NaN is
/// level 0.
pub open spec fn spec_quantize(c: Scalar) -> int {
    if c.spec_is_nan() {
        0
    } else {
        (256 * clamped_channel(c)) / (pow2(149) as int)
    }
}

/// The four samples of a pixel: the levels of red, green and blue, and
/// full opacity.
pub open spec fn pixel_samples(pixel: Color) -> Seq<u8> {
    seq![
        spec_quantize(pixel.x) as u8,
        spec_quantize(pixel.y) as u8,
        spec_quantize(pixel.z) as u8,
        255u8,
    ]
}

/// The samples of a sequence of pixels, four to a pixel.
pub open spec fn color_samples(pixels: Seq<Color>) -> Seq<u8> {
    Seq::new(4 * pixels.len(), |k: int| pixel_samples(pixels[k / 4])[k % 4])
}

/// The decimal digits of a number, as ASCII.
pub open spec fn decimal(n: nat) -> Seq<u8>
    decreases n,
{
    if n < 10 {
        seq![(48 + n) as u8]
    } else {
        decimal(n / 10).push((48 + n % 10) as u8)
    }
}

/// The line of a pixel in a text image: the three levels in decimal, a
/// space between them and a line feed behind.
pub open spec fn pixel_line(pixel: Color) -> Seq<u8> {
    decimal(spec_quantize(pixel.x) as nat) + seq![32u8] + decimal(spec_quantize(pixel.y) as nat)
        + seq![32u8] + decimal(spec_quantize(pixel.z) as nat) + seq![10u8]
}

/// The header of a text image: the tag of a plain pixmap, the width and
/// the height, and the highest level, each on a line of its own.
pub open spec fn header(width: u32, height: u32) -> Seq<u8> {
    seq![80u8, 51u8, 10u8] + decimal(width as nat) + seq![32u8] + decimal(height as nat)
        + seq![10u8, 50u8, 53u8, 53u8, 10u8]
}

/// A normal number below 1, times 256 and rounded down, is its fraction
/// with the hidden bit, shifted right; and that is below 256.
proof fn lemma_level_of_normal(f: int, e: int)
    requires
        0 <= f < 0x80_0000,
        119 <= e <= 126,
    ensures
        (256 * ((0x80_0000 + f) * pow2((e - 1) as nat))) / (pow2(149) as int) == (0x80_0000 + f) / (
        pow2((142 - e) as nat) as int),
        0 <= (0x80_0000 + f) / (pow2((142 - e) as nat) as int) < 256,
{
    let x = 0x80_0000 + f;
    let p = pow2((e - 1) as nat) as int;
    let big = pow2((e + 7) as nat) as int;
    let d = pow2((142 - e) as nat) as int;
    lemma2_to64();
    lemma_pow2_adds(8, (e - 1) as nat);
    lemma_pow2_adds((e + 7) as nat, (142 - e) as nat);
    lemma_pow2_pos((e + 7) as nat);
    lemma_pow2_pos((142 - e) as nat);
    assert(256 * (x * p) == big * x) by (nonlinear_arith)
        requires
            big == 256 * p,
    ;
    lemma_div_multiples_vanish_quotient(big, x, d);
    if 142 - e > 16 {
        lemma_pow2_strictly_increases(16, (142 - e) as nat);
    }
    lemma_div_is_ordered_by_denominator(x, 0x1_0000, d);
}

/// A number below 1/256 is level 0.
proof fn lemma_level_of_small(c: Scalar)
    requires
        !c.sign_bit(),
        c.magnitude_bits() < 119 * 0x80_0000,
    ensures
        spec_quantize(c) == 0,
{
    let top = Scalar { bits: CHANNEL_MAX_BITS };
    let edge: int = 0x3b80_0000;
    lemma_magnitude_at_least_zero(c.magnitude_bits());
    lemma_magnitude_grows(c.magnitude_bits(), edge);
    lemma_magnitude_grows(edge, top.magnitude_bits());
    lemma2_to64();
    lemma_pow2_adds(31, 118);
    let q = pow2(118) as int;
    assert(magnitude_of(edge) == 0x80_0000 * q);
    assert(256 * c.scaled() < 0x8000_0000 * q) by (nonlinear_arith)
        requires
            c.scaled() < 0x80_0000 * q,
    ;
    lemma_basic_div(256 * c.scaled(), pow2(149) as int);
}

/// A number from 0.999 up is level 255.
proof fn lemma_level_of_large(c: Scalar)
    requires
        !c.sign_bit(),
        !c.spec_is_nan(),
        c.magnitude_bits() >= CHANNEL_MAX_BITS,
    ensures
        spec_quantize(c) == 255,
{
    let top = Scalar { bits: CHANNEL_MAX_BITS };
    lemma_magnitude_at_least_zero(top.magnitude_bits());
    if c.magnitude_bits() > top.magnitude_bits() {
        lemma_magnitude_grows(top.magnitude_bits(), c.magnitude_bits());
    }
    lemma2_to64();
    lemma_level_of_normal(0x7f_be77, 126);
    assert(top.magnitude_bits() == 0x3f7f_be77);
    assert(top.scaled() == (0x80_0000 + 0x7f_be77) * pow2(125));
    assert(clamped_channel(c) == top.scaled());
    assert((0x80_0000 + 0x7f_be77) / 0x1_0000 == 255);
}

/// Every channel has a level, and it fits in eight bits.
pub proof fn lemma_quantize_is_a_level(c: Scalar)
    ensures
        0 <= spec_quantize(c) <= 255,
{
    let m = c.magnitude_bits();
    if c.spec_is_nan() {
    } else if c.sign_bit() {
        lemma_magnitude_at_least_zero(m);
        lemma_magnitude_at_least_zero((Scalar { bits: CHANNEL_MAX_BITS }).magnitude_bits());
        lemma_pow2_pos(149);
        lemma_basic_div(0, pow2(149) as int);
    } else if m >= CHANNEL_MAX_BITS {
        lemma_level_of_large(c);
    } else if m < 0x3b80_0000 {
        lemma_level_of_small(c);
    } else {
        let top = Scalar { bits: CHANNEL_MAX_BITS };
        lemma_magnitude_at_least_zero(m);
        lemma_magnitude_grows(m, top.magnitude_bits());
        lemma_level_of_normal(m % 0x80_0000, m / 0x80_0000);
    }
}

/// The level from 0 to 255 of a channel.
pub fn quantize(c: Scalar) -> (level: u8)
    ensures
        level == spec_quantize(c),
{
    let m: u32 = c.bits % SIGN_BIT;
    if m > INFINITY_BITS {
        return 0;
    }
    if c.bits >= SIGN_BIT {
        proof {
            lemma_magnitude_at_least_zero(c.magnitude_bits());
            lemma_magnitude_at_least_zero((Scalar { bits: CHANNEL_MAX_BITS }).magnitude_bits());
            assert((256 * 0int) / (pow2(149) as int) == 0) by {
                lemma_pow2_pos(149);
                lemma_basic_div(0, pow2(149) as int);
            }
        }
        return 0;
    }
    if m >= CHANNEL_MAX_BITS {
        proof {
            lemma_level_of_large(c);
        }
        return 255;
    }
    let e: u32 = m / HIDDEN_BIT;
    let f: u32 = m % HIDDEN_BIT;
    if e < FIRST_LEVEL_EXPONENT {
        proof {
            lemma_level_of_small(c);
        }
        return 0;
    }
    let shift: u32 = 142 - e;
    let x: u32 = HIDDEN_BIT + f;
    proof {
        let top = Scalar { bits: CHANNEL_MAX_BITS };
        lemma_magnitude_at_least_zero(c.magnitude_bits());
        lemma_magnitude_grows(c.magnitude_bits(), top.magnitude_bits());
        lemma_level_of_normal(f as int, e as int);
        lemma_u32_shr_is_div(x, shift);
    }
    (x >> shift) as u8
}

/// Appends the decimal digits of `n` to `out`.
pub fn write_decimal(out: &mut Vec<u8>, n: u32)
    ensures
        final(out)@ == old(out)@ + decimal(n as nat),
    decreases n,
{
    if n >= 10 {
        write_decimal(out, n / 10);
    }
    let digit: u8 = (n % 10) as u8;
    out.push(48 + digit);
    assert(out@ =~= old(out)@ + decimal(n as nat));
}

/// Appends the line of a pixel to a text image.
///
/// `pixel` is the colour after the samples were averaged and the gamma was
/// corrected.
pub fn write_color(out: &mut Vec<u8>, pixel: Color)
    ensures
        final(out)@ == old(out)@ + pixel_line(pixel),
{
    write_decimal(out, quantize(pixel.x) as u32);
    out.push(32);
    write_decimal(out, quantize(pixel.y) as u32);
    out.push(32);
    write_decimal(out, quantize(pixel.z) as u32);
    out.push(10);
    assert(out@ =~= old(out)@ + pixel_line(pixel));
}

/// Appends the header of a text image of the given size.
pub fn write_header(out: &mut Vec<u8>, width: u32, height: u32)
    ensures
        final(out)@ == old(out)@ + header(width, height),
{
    out.push(80);
    out.push(51);
    out.push(10);
    write_decimal(out, width);
    out.push(32);
    write_decimal(out, height);
    out.push(10);
    out.push(50);
    out.push(53);
    out.push(53);
    out.push(10);
    assert(out@ =~= old(out)@ + header(width, height));
}

/// The four samples of a pixel of the image: the levels of red, green and
/// blue, and full opacity.
pub fn rgba(pixel: Color) -> (samples: [u8; 4])
    ensures
        samples@ == pixel_samples(pixel),
{
    let samples = [quantize(pixel.x), quantize(pixel.y), quantize(pixel.z), 255];
    assert(samples@ =~= pixel_samples(pixel));
    samples
}

} // verus!
