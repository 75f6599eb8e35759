//! From linear colour to the text of a plain PPM image.
use vstd::prelude::*;
use crate::interval::Interval;
use crate::scalar::Scalar;

verus! {

/// Bit pattern of `0.999`, the largest intensity that is written.
pub const INTENSITY_MAX: u64 = 0x3FEF_F7CE_D916_872B;

/// ASCII code of the digit `0`; the other digits follow it in order.
pub const DIGIT_ZERO: u8 = 48;

/// ASCII code of the space.
pub const SPACE: u8 = 32;

/// ASCII code of the line feed.
pub const NEWLINE: u8 = 10;

/// ASCII code of the minus sign.
pub const MINUS: u8 = 45;

/// ASCII code of the letter `P`.
pub const LETTER_P: u8 = 80;

/// The largest value of a channel.
pub const CHANNEL_MAX: u64 = 255;

/// The decimal digits of `n`, in ASCII, without leading zeros.
pub open spec fn decimal(n: nat) -> Seq<u8>
    decreases n,
{
    if n < 10 {
        seq![(DIGIT_ZERO + n) as u8]
    } else {
        decimal(n / 10).push((DIGIT_ZERO + n % 10) as u8)
    }
}

/// The decimal form of an integer, with `-` before a negative one.
pub open spec fn signed_decimal(i: int) -> Seq<u8> {
    if i < 0 {
        seq![MINUS] + decimal((-i) as nat)
    } else {
        decimal(i as nat)
    }
}

/// The header of a plain PPM image: magic number, size, and the largest
/// channel value, each on a line of its own.
pub open spec fn header_text(width: nat, height: nat) -> Seq<u8> {
    seq![LETTER_P] + decimal(3) + seq![NEWLINE] + decimal(width) + seq![SPACE] + decimal(height)
        + seq![NEWLINE] + decimal(CHANNEL_MAX as nat) + seq![NEWLINE]
}

/// One pixel: its three channels, separated by spaces, on a line.
pub open spec fn pixel_text(r: int, g: int, b: int) -> Seq<u8> {
    signed_decimal(r) + seq![SPACE] + signed_decimal(g) + seq![SPACE] + signed_decimal(b)
        + seq![NEWLINE]
}

pub open spec fn spec_linear_to_gamma(linear_component: Scalar, root: Scalar) -> Scalar {
    if linear_component.gt(Scalar::zero()) {
        root
    } else {
        Scalar::zero()
    }
}

pub open spec fn spec_intensity() -> Interval {
    Interval { min: Scalar::zero(), max: Scalar { bits: INTENSITY_MAX } }
}

/// The gamma-2 transform of a linear colour component, given its square
/// `root`: the root for a component above zero, and zero for any other, a
/// NaN included.
#[verifier::when_used_as_spec(spec_linear_to_gamma)]
pub fn linear_to_gamma(linear_component: Scalar, root: Scalar) -> (r: Scalar)
    ensures
        r == linear_to_gamma(linear_component, root),
{
    if linear_component.gt(Scalar::zero()) {
        root
    } else {
        Scalar::zero()
    }
}

/// The range `[0, 0.999]` to which a channel is clamped before it is scaled
/// to an integer.
#[verifier::when_used_as_spec(spec_intensity)]
pub fn intensity() -> (i: Interval)
    ensures
        i == intensity(),
        i.ordered(),
{
    Interval::new(Scalar::zero(), Scalar::from_bits(INTENSITY_MAX))
}

/// Appends the decimal digits of `n` to `out`.
pub fn push_decimal(out: &mut Vec<u8>, n: u64)
    ensures
        final(out)@ == old(out)@ + decimal(n as nat),
    decreases n,
{
    if n >= 10 {
        push_decimal(out, n / 10);
    }
    out.push(DIGIT_ZERO + (n % 10) as u8);
    assert(final(out)@ =~= old(out)@ + decimal(n as nat));
}

/// Appends the decimal form of `i` to `out`.
pub fn push_signed(out: &mut Vec<u8>, i: i32)
    ensures
        final(out)@ == old(out)@ + signed_decimal(i as int),
{
    if i < 0 {
        out.push(MINUS);
        push_decimal(out, (-(i as i64)) as u64);
    } else {
        push_decimal(out, i as u64);
    }
    assert(final(out)@ =~= old(out)@ + signed_decimal(i as int));
}

/// The header of a plain PPM image of the given size.
pub fn ppm_header(width: usize, height: usize) -> (out: Vec<u8>)
    ensures
        out@ == header_text(width as nat, height as nat),
{
    let mut out: Vec<u8> = Vec::new();
    out.push(LETTER_P);
    push_decimal(&mut out, 3);
    out.push(NEWLINE);
    push_decimal(&mut out, width as u64);
    out.push(SPACE);
    push_decimal(&mut out, height as u64);
    out.push(NEWLINE);
    push_decimal(&mut out, CHANNEL_MAX);
    out.push(NEWLINE);
    assert(out@ =~= header_text(width as nat, height as nat));
    out
}

/// The line of a plain PPM image for a pixel with the given channels.
pub fn write_color(r: i32, g: i32, b: i32) -> (out: Vec<u8>)
    ensures
        out@ == pixel_text(r as int, g as int, b as int),
{
    let mut out: Vec<u8> = Vec::new();
    push_signed(&mut out, r);
    out.push(SPACE);
    push_signed(&mut out, g);
    out.push(SPACE);
    push_signed(&mut out, b);
    out.push(NEWLINE);
    assert(out@ =~= pixel_text(r as int, g as int, b as int));
    out
}

} // verus!
