use vstd::prelude::*;

use crate::color::unpack;

verus! {

/// ASCII `0`.
pub const DIGIT_ZERO: u8 = 48;

/// ASCII space, between the numbers of one line.
pub const SPACE: u8 = 32;

/// ASCII line feed, ending each line.
pub const NEWLINE: u8 = 10;

/// ASCII `P`, the first byte of the magic `P3` that marks a plain-text PPM.
pub const MAGIC_LETTER: u8 = 80;

/// ASCII `3`, the second byte of the magic.
pub const MAGIC_DIGIT: u8 = 51;

/// The largest channel value, written in the header.
pub const MAX_CHANNEL: usize = 255;

/// The decimal digits of `n` as ASCII bytes, most significant first, with no
/// leading zeros (zero itself is one digit).
pub open spec fn decimal(n: nat) -> Seq<u8>
    decreases n,
{
    if n < 10 {
        seq![(DIGIT_ZERO + n) as u8]
    } else {
        decimal(n / 10).push((DIGIT_ZERO + n % 10) as u8)
    }
}

/// The plain-text PPM header: magic `P3`, the size, and the largest channel
/// value, one item per line.
pub open spec fn ppm_header(w: nat, h: nat) -> Seq<u8> {
    seq![MAGIC_LETTER, MAGIC_DIGIT, NEWLINE] + decimal(w) + seq![SPACE] + decimal(h) + seq![NEWLINE] + decimal(
        MAX_CHANNEL as nat,
    ) + seq![NEWLINE]
}

/// One pixel's line: its red, green and blue values in decimal.
pub open spec fn ppm_pixel_line(c: (u8, u8, u8)) -> Seq<u8> {
    decimal(c.0 as nat) + seq![SPACE] + decimal(c.1 as nat) + seq![SPACE] + decimal(c.2 as nat) + seq![NEWLINE]
}

/// The lines of the packed pixels `ps`, in order.
pub open spec fn ppm_body(ps: Seq<u32>) -> Seq<u8>
    decreases ps.len(),
{
    if ps.len() == 0 {
        Seq::empty()
    } else {
        ppm_body(ps.drop_last()) + ppm_pixel_line(unpack(ps.last()))
    }
}

/// The whole plain-text PPM image of a `w` by `h` grid of packed pixels
/// stored row by row.
pub open spec fn ppm_text(w: nat, h: nat, ps: Seq<u32>) -> Seq<u8> {
    ppm_header(w, h) + ppm_body(ps)
}

/// The PPM lines of a prefix grow by one line for each further pixel.
pub proof fn lemma_ppm_body_extend(ps: Seq<u32>, i: int)
    requires
        0 <= i < ps.len(),
    ensures
        ppm_body(ps.take(i + 1)) == ppm_body(ps.take(i)) + ppm_pixel_line(unpack(ps[i])),
{
    assert(ps.take(i + 1).drop_last() =~= ps.take(i));
}

/// Appends the decimal digits of `n`.
pub(crate) fn push_decimal(out: &mut Vec<u8>, n: usize)
    ensures
        final(out)@ == old(out)@ + decimal(n as nat),
    decreases n,
{
    if n >= 10 {
        push_decimal(out, n / 10);
    }
    out.push(DIGIT_ZERO + (n % 10) as u8);
    proof {
        if n >= 10 {
            assert(old(out)@ + decimal(n as nat / 10) + seq![(DIGIT_ZERO + n as nat % 10) as u8] =~= old(out)@
                + decimal(n as nat));
        } else {
            assert(old(out)@ + seq![(DIGIT_ZERO + n as nat) as u8] =~= old(out)@ + decimal(n as nat));
        }
    }
}

} // verus!
