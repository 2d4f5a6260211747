//! Plain ("P3") PPM encoding of an image: a three-line header, then one
//! line of decimal red, green and blue values per pixel, row by row from the
//! top, each row from left to right.
use vstd::prelude::*;

verus! {

/// ASCII `P`.
pub const LETTER_P: u8 = 80;

/// ASCII `0`; the other digits follow it.
pub const ZERO: u8 = 48;

/// ASCII space.
pub const SPACE: u8 = 32;

/// ASCII line feed.
pub const NEWLINE: u8 = 10;

/// An encoded pixel: one 8-bit value per channel.
#[derive(Clone, Copy, Debug, PartialEq, Eq, Structural)]
pub struct Rgb {
    pub r: u8,
    pub g: u8,
    pub b: u8,
}

/// The ASCII digits of `n` in base ten, most significant first, without
/// leading zeros.
pub open spec fn decimal(n: nat) -> Seq<u8>
    decreases n,
{
    if n < 10 {
        seq![(n + ZERO) as u8]
    } else {
        decimal(n / 10).push((n % 10 + ZERO) as u8)
    }
}

/// `P3`, the image size, and the largest channel value 255, one per line.
pub open spec fn header_text(width: nat, height: nat) -> Seq<u8> {
    seq![LETTER_P, (ZERO + 3) as u8, NEWLINE] + decimal(width) + seq![SPACE] + decimal(height) + seq![
        NEWLINE,
        (ZERO + 2) as u8,
        (ZERO + 5) as u8,
        (ZERO + 5) as u8,
        NEWLINE,
    ]
}

/// The line of one pixel: its three channels separated by spaces.
pub open spec fn pixel_text(p: Rgb) -> Seq<u8> {
    decimal(p.r as nat) + seq![SPACE] + decimal(p.g as nat) + seq![SPACE] + decimal(p.b as nat)
        + seq![NEWLINE]
}

/// The lines of a sequence of pixels, in order.
pub open spec fn pixels_text(ps: Seq<Rgb>) -> Seq<u8>
    decreases ps.len(),
{
    if ps.len() == 0 {
        Seq::empty()
    } else {
        pixels_text(ps.drop_last()) + pixel_text(ps.last())
    }
}

/// A whole image file: the header, then every pixel.
pub open spec fn image_text(width: nat, height: nat, ps: Seq<Rgb>) -> Seq<u8> {
    header_text(width, height) + pixels_text(ps)
}

/// Appends the decimal digits of `n` to `out`.
pub fn write_decimal(out: &mut Vec<u8>, n: u64)
    ensures
        final(out)@ == old(out)@ + decimal(n as nat),
    decreases n,
{
    if n >= 10 {
        write_decimal(out, n / 10);
    }
    out.push((n % 10) as u8 + ZERO);
    assert(out@ =~= old(out)@ + decimal(n as nat));
}

/// Appends a PPM header for an image of `width` by `height` pixels.
pub fn write_header(out: &mut Vec<u8>, width: u64, height: u64)
    ensures
        final(out)@ == old(out)@ + header_text(width as nat, height as nat),
{
    out.push(LETTER_P);
    out.push((ZERO + 3) as u8);
    out.push(NEWLINE);
    write_decimal(out, width);
    out.push(SPACE);
    write_decimal(out, height);
    out.push(NEWLINE);
    out.push((ZERO + 2) as u8);
    out.push((ZERO + 5) as u8);
    out.push((ZERO + 5) as u8);
    out.push(NEWLINE);
    assert(out@ =~= old(out)@ + header_text(width as nat, height as nat));
}

/// Appends the line of one encoded pixel.
pub fn write_color(out: &mut Vec<u8>, color: Rgb)
    ensures
        final(out)@ == old(out)@ + pixel_text(color),
{
    write_decimal(out, color.r as u64);
    out.push(SPACE);
    write_decimal(out, color.g as u64);
    out.push(SPACE);
    write_decimal(out, color.b as u64);
    out.push(NEWLINE);
    assert(out@ =~= old(out)@ + pixel_text(color));
}

/// The PPM file of an image of `width` by `height` pixels, given in row-major
/// order from the top-left corner.
pub fn encode_image(width: u64, height: u64, pixels: &Vec<Rgb>) -> (r: Vec<u8>)
    requires
        pixels@.len() == width * height,
    ensures
        r@ == image_text(width as nat, height as nat, pixels@),
{
    let mut out: Vec<u8> = Vec::new();
    write_header(&mut out, width, height);
    let mut k: usize = 0;
    while k < pixels.len()
        invariant
            k <= pixels@.len(),
            out@ == header_text(width as nat, height as nat) + pixels_text(pixels@.take(k as int)),
        decreases pixels@.len() - k,
    {
        let ghost before = out@;
        write_color(&mut out, pixels[k]);
        proof {
            let next = pixels@.take(k + 1);
            assert(next.drop_last() =~= pixels@.take(k as int));
            assert(out@ =~= header_text(width as nat, height as nat) + pixels_text(next));
        }
        k = k + 1;
    }
    assert(pixels@.take(k as int) =~= pixels@);
    out
}

} // verus!
