use vstd::prelude::*;

verus! {

/// ASCII codes of the characters that the format uses.
pub const DIGIT_ZERO: u8 = 48;

pub const MINUS: u8 = 45;

pub const SPACE: u8 = 32;

pub const NEWLINE: u8 = 10;

pub const LETTER_P: u8 = 80;

/// Largest channel value of the format.
pub const MAX_CHANNEL: u64 = 255;

/// ASCII decimal digits of `n`, most significant first, with no leading zero.
pub open spec fn digits(n: nat) -> Seq<u8>
    decreases n,
{
    if n < 10 {
        seq![(DIGIT_ZERO + n) as u8]
    } else {
        digits(n / 10).push((DIGIT_ZERO + n % 10) as u8)
    }
}

/// ASCII decimal text of `n`, with a leading `-` when it is negative.
pub open spec fn decimal(n: int) -> Seq<u8> {
    if n < 0 {
        seq![MINUS] + digits((-n) as nat)
    } else {
        digits(n as nat)
    }
}

/// The three header lines of a plain-text pixel map: the format tag `P3`,
/// the dimensions, and the maximum channel value 255.
pub open spec fn header_text(width: nat, height: nat) -> Seq<u8> {
    seq![LETTER_P] + digits(3) + seq![NEWLINE] + digits(width) + seq![SPACE] + digits(height)
        + seq![NEWLINE] + digits(MAX_CHANNEL as nat) + seq![NEWLINE]
}

/// One pixel line: the three channel values separated by spaces.
pub open spec fn pixel_text(r: int, g: int, b: int) -> Seq<u8> {
    decimal(r) + seq![SPACE] + decimal(g) + seq![SPACE] + decimal(b) + seq![NEWLINE]
}

fn push_digits(out: &mut Vec<u8>, n: u64)
    ensures
        final(out)@ == old(out)@ + digits(n as nat),
    decreases n,
{
    if n >= 10 {
        push_digits(out, n / 10);
    }
    out.push(DIGIT_ZERO + (n % 10) as u8);
    proof {
        assert(final(out)@ =~= old(out)@ + digits(n as nat));
    }
}

fn push_decimal(out: &mut Vec<u8>, n: i64)
    ensures
        final(out)@ == old(out)@ + decimal(n as int),
{
    if n < 0 {
        out.push(MINUS);
        let a: u64 = (-(n + 1)) as u64 + 1;
        push_digits(out, a);
        proof {
            assert(final(out)@ =~= old(out)@ + decimal(n as int));
        }
    } else {
        push_digits(out, n as u64);
    }
}

/// Header of a plain-text pixel map of `width` by `height` pixels.
pub fn header(width: u32, height: u64) -> (r: Vec<u8>)
    ensures
        r@ == header_text(width as nat, height as nat),
{
    let mut r: Vec<u8> = Vec::new();
    r.push(LETTER_P);
    push_digits(&mut r, 3);
    r.push(NEWLINE);
    push_digits(&mut r, width as u64);
    r.push(SPACE);
    push_digits(&mut r, height);
    r.push(NEWLINE);
    push_digits(&mut r, MAX_CHANNEL);
    r.push(NEWLINE);
    assert(r@ =~= header_text(width as nat, height as nat));
    r
}

/// Line of a plain-text pixel map for one pixel with the given channel
/// values; values outside 0..=255 are written as they are.
pub fn pixel_line(r: i64, g: i64, b: i64) -> (line: Vec<u8>)
    ensures
        line@ == pixel_text(r as int, g as int, b as int),
{
    let mut line: Vec<u8> = Vec::new();
    push_decimal(&mut line, r);
    line.push(SPACE);
    push_decimal(&mut line, g);
    line.push(SPACE);
    push_decimal(&mut line, b);
    line.push(NEWLINE);
    assert(line@ =~= pixel_text(r as int, g as int, b as int));
    line
}

} // verus!
