//! The textual pixel-map format: a header, then one line per pixel.
use vstd::prelude::*;
use crate::scalar::{is_positive, positive};

verus! {

/// The weight of the lowest exponent bit in a bit pattern: two to the 23rd.
pub const HIDDEN_BIT: u32 = 0x80_0000;

/// The biased exponent of one.
pub const BIAS: u32 = 127;

/// The biased exponent of a number.
pub open spec fn exponent(bits: u32) -> nat {
    ((bits / HIDDEN_BIT) % 256) as nat
}

/// The stored fraction bits of a number.
pub open spec fn mantissa(bits: u32) -> nat {
    (bits % HIDDEN_BIT) as nat
}

/// `q` halved `k` times, rounding down each time.
pub open spec fn halved(q: nat, k: nat) -> nat
    decreases k,
{
    if k == 0 {
        q
    } else {
        halved(q / 2, (k - 1) as nat)
    }
}

/// The whole part of a positive number below 256: nothing of a number below
/// one; else the significand (the hidden bit and the fraction), halved once
/// for each step that the exponent lies below 23.
pub open spec fn whole_part(bits: u32) -> nat
    recommends
        exponent(bits) <= BIAS + 7,
{
    if exponent(bits) < BIAS {
        0
    } else {
        halved((HIDDEN_BIT + mantissa(bits)) as nat, (BIAS + 23 - exponent(bits)) as nat)
    }
}

/// The channel value of a scaled colour component: its whole part, brought
/// into the display range. What is no number, zero or negative gives 0; 256
/// and above give the largest value.
pub open spec fn channel_of(scaled: u32) -> u8 {
    if !positive(scaled) {
        0
    } else if exponent(scaled) > BIAS + 7 {
        MAX_CHANNEL
    } else {
        clamped(whole_part(scaled) as u64)
    }
}

/// Truncates a scaled colour component, given as a bit pattern, to a channel
/// value in the display range.
pub fn channel(scaled: u32) -> (c: u8)
    ensures
        c == channel_of(scaled),
{
    if !is_positive(scaled) {
        return 0;
    }
    let e: u32 = (scaled / HIDDEN_BIT) % 256;
    if e > BIAS + 7 {
        return MAX_CHANNEL;
    }
    if e < BIAS {
        return 0;
    }
    let mut q: u32 = HIDDEN_BIT + scaled % HIDDEN_BIT;
    let mut k: u32 = BIAS + 23 - e;
    while k > 0
        invariant
            halved(q as nat, k as nat) == whole_part(scaled),
        decreases k,
    {
        q = q / 2;
        k = k - 1;
    }
    clamp_channel(q as u64)
}

/// The largest value of a colour channel.
pub const MAX_CHANNEL: u8 = 255;

/// The ASCII character of a decimal digit.
pub open spec fn digit(d: nat) -> u8
    recommends
        d < 10,
{
    (48 + d) as u8
}

/// A number in decimal, most significant digit first, without leading zeros.
pub open spec fn decimal(n: nat) -> Seq<u8>
    decreases n,
{
    if n < 10 {
        seq![digit(n)]
    } else {
        decimal(n / 10).push(digit(n % 10))
    }
}

/// A channel value brought into the display range.
pub open spec fn clamped(value: u64) -> u8 {
    if value > MAX_CHANNEL {
        MAX_CHANNEL
    } else {
        value as u8
    }
}

/// The header of an image: the magic word `P3`, the width and the height,
/// and the largest channel value, on three lines.
pub open spec fn header_text(width: u32, height: u32) -> Seq<u8> {
    seq![80u8, 51u8, 10u8] + decimal(width as nat) + seq![32u8] + decimal(height as nat) + seq![
        10u8,
        50u8,
        53u8,
        53u8,
        10u8,
    ]
}

/// The line of one pixel: red, green and blue in decimal, with a space
/// between them and a line feed at the end.
pub open spec fn pixel_text(red: u8, green: u8, blue: u8) -> Seq<u8> {
    decimal(red as nat) + seq![32u8] + decimal(green as nat) + seq![32u8] + decimal(blue as nat)
        + seq![10u8]
}

/// Clamps a channel value to the display range.
pub fn clamp_channel(value: u64) -> (c: u8)
    ensures
        c == clamped(value),
        c <= value,
        value <= MAX_CHANNEL ==> c == value,
{
    if value > 255 {
        MAX_CHANNEL
    } else {
        value as u8
    }
}

/// Appends a number in decimal.
pub fn push_decimal(out: &mut Vec<u8>, n: u64)
    ensures
        final(out)@ == old(out)@ + decimal(n as nat),
    decreases n,
{
    if n >= 10 {
        push_decimal(out, n / 10);
    }
    let d: u8 = (n % 10) as u8;
    out.push(48 + d);
    proof {
        if n >= 10 {
            assert(out@ =~= old(out)@ + decimal((n / 10) as nat).push(digit((n % 10) as nat)));
        } else {
            assert(out@ =~= old(out)@ + seq![digit(n as nat)]);
        }
    }
}

/// The header of an image of the given size, as ASCII text.
pub fn header(width: u32, height: u32) -> (text: Vec<u8>)
    ensures
        text@ == header_text(width, height),
{
    let mut text: Vec<u8> = Vec::new();
    text.push(80);
    text.push(51);
    text.push(10);
    push_decimal(&mut text, width as u64);
    text.push(32);
    push_decimal(&mut text, height as u64);
    text.push(10);
    text.push(50);
    text.push(53);
    text.push(53);
    text.push(10);
    proof {
        assert(text@ =~= header_text(width, height));
    }
    text
}

/// The line of one pixel, as ASCII text.
pub fn pixel_line(red: u8, green: u8, blue: u8) -> (text: Vec<u8>)
    ensures
        text@ == pixel_text(red, green, blue),
{
    let mut text: Vec<u8> = Vec::new();
    push_decimal(&mut text, red as u64);
    text.push(32);
    push_decimal(&mut text, green as u64);
    text.push(32);
    push_decimal(&mut text, blue as u64);
    text.push(10);
    proof {
        assert(text@ =~= pixel_text(red, green, blue));
    }
    text
}

/// Two to the power `k`.
pub open spec fn two_to(k: nat) -> nat
    decreases k,
{
    if k == 0 {
        1
    } else {
        2 * two_to((k - 1) as nat)
    }
}

/// Halving `k` times divides by two to the `k` and rounds down: the whole
/// part of a number is its value rounded toward zero.
pub proof fn halved_is_floor(q: nat, k: nat)
    ensures
        halved(q, k) * two_to(k) <= q < (halved(q, k) + 1) * two_to(k),
    decreases k,
{
    if k > 0 {
        let half = q / 2;
        let h = halved(half, (k - 1) as nat);
        let p = two_to((k - 1) as nat);
        halved_is_floor(half, (k - 1) as nat);
        assert(h * (2 * p) <= q && q < (h + 1) * (2 * p)) by (nonlinear_arith)
            requires
                h * p <= half,
                half < (h + 1) * p,
                2 * half <= q < 2 * half + 2,
        ;
        assert(halved(q, k) == h);
        assert(two_to(k) == 2 * p);
    } else {
        assert(halved(q, k) == q);
        assert(two_to(k) == 1);
        assert(q * 1 == q && (q + 1) * 1 == q + 1);
    }
}

/// A number in decimal has at least one character, every character of it is
/// an ASCII digit, and a number of two or more digits does not start with `0`.
pub proof fn decimal_is_digits(n: nat)
    ensures
        decimal(n).len() >= 1,
        forall|i: int| 0 <= i < decimal(n).len() ==> 48 <= #[trigger] decimal(n)[i] <= 57,
        n >= 10 ==> decimal(n)[0] != 48,
    decreases n,
{
    if n >= 10 {
        decimal_is_digits(n / 10);
        if n / 10 >= 10 {
        } else {
            assert(decimal(n / 10) =~= seq![digit(n / 10)]);
        }
    }
}

} // verus!
