//! The plain-text PPM ("P3") encoding of an image: a header naming the
//! dimensions and the channel maximum, then one line per pixel.
use vstd::prelude::*;

verus! {

/// One pixel, each channel already quantized to 0..=255.
#[derive(Debug, Clone, Copy, PartialEq, Eq, Structural)]
pub struct Rgb8 {
    pub r: u8,
    pub g: u8,
    pub b: u8,
}

/// ASCII `P`.
pub const LETTER_P: u8 = 80;

/// ASCII space, between the numbers of a line.
pub const SPACE: u8 = 32;

/// ASCII line feed, at the end of every line.
pub const NEWLINE: u8 = 10;

/// The ASCII digit for `d`, where `d < 10`.
pub open spec fn ascii_digit(d: nat) -> u8
    recommends
        d < 10,
{
    (d + 48) as u8
}

/// The decimal representation of `n`, most significant digit first, with no
/// leading zeros.
pub open spec fn decimal(n: nat) -> Seq<u8>
    decreases n,
{
    if n < 10 {
        seq![ascii_digit(n)]
    } else {
        decimal(n / 10).push(ascii_digit(n % 10))
    }
}

/// `P3`, then `<width> <height>`, then `255`, each on a line of its own.
pub open spec fn header_text(width: nat, height: nat) -> Seq<u8> {
    seq![LETTER_P, ascii_digit(3), NEWLINE] + decimal(width) + seq![SPACE] + decimal(height)
        + seq![NEWLINE] + decimal(255) + seq![NEWLINE]
}

/// `<r> <g> <b>` on a line of its own.
pub open spec fn pixel_text(p: Rgb8) -> Seq<u8> {
    decimal(p.r as nat) + seq![SPACE] + decimal(p.g as nat) + seq![SPACE] + decimal(p.b as nat)
        + seq![NEWLINE]
}

/// The lines of `pixels`, in the order given.
pub open spec fn pixels_text(pixels: Seq<Rgb8>) -> Seq<u8>
    decreases pixels.len(),
{
    if pixels.len() == 0 {
        Seq::empty()
    } else {
        pixels_text(pixels.drop_last()) + pixel_text(pixels.last())
    }
}

/// Appends the decimal representation of `n`.
pub fn write_decimal(out: &mut Vec<u8>, n: u32)
    ensures
        final(out)@ == old(out)@ + decimal(n as nat),
    decreases n,
{
    if n >= 10 {
        write_decimal(out, n / 10);
    }
    out.push((48 + n % 10) as u8);
    assert(final(out)@ =~= old(out)@ + decimal(n as nat));
}

/// Appends the header of a `width` by `height` image.
pub fn write_header(out: &mut Vec<u8>, width: u32, height: u32)
    ensures
        final(out)@ == old(out)@ + header_text(width as nat, height as nat),
{
    let ghost start = out@;
    out.push(LETTER_P);
    out.push(48 + 3);
    out.push(NEWLINE);
    write_decimal(out, width);
    out.push(SPACE);
    write_decimal(out, height);
    out.push(NEWLINE);
    write_decimal(out, 255);
    out.push(NEWLINE);
    assert(out@ =~= start + header_text(width as nat, height as nat));
}

/// Appends the line of one pixel.
pub fn write_pixel(out: &mut Vec<u8>, p: Rgb8)
    ensures
        final(out)@ == old(out)@ + pixel_text(p),
{
    let ghost start = out@;
    write_decimal(out, p.r as u32);
    out.push(SPACE);
    write_decimal(out, p.g as u32);
    out.push(SPACE);
    write_decimal(out, p.b as u32);
    out.push(NEWLINE);
    assert(out@ =~= start + pixel_text(p));
}

/// The whole file for a `width` by `height` image whose pixels are given
/// row by row, top row first, each row left to right. `None` when the
/// number of pixels is not `width * height`.
pub fn encode(width: u32, height: u32, pixels: &Vec<Rgb8>) -> (r: Option<Vec<u8>>)
    ensures
        r is Some <==> pixels@.len() == width * height,
        r matches Some(bytes) ==> bytes@ == header_text(width as nat, height as nat) + pixels_text(
            pixels@,
        ),
{
    assert((width as u64) * (height as u64) <= u32::MAX * u32::MAX) by (nonlinear_arith)
        requires
            width <= u32::MAX,
            height <= u32::MAX,
    ;
    if pixels.len() as u64 != (width as u64) * (height as u64) {
        return None;
    }
    let mut out: Vec<u8> = Vec::new();
    write_header(&mut out, width, height);
    let ghost head = out@;
    for k in 0..pixels.len()
        invariant
            head == header_text(width as nat, height as nat),
            out@ == head + pixels_text(pixels@.subrange(0, k as int)),
    {
        let ghost before = out@;
        write_pixel(&mut out, pixels[k]);
        proof {
            let next = pixels@.subrange(0, k + 1);
            assert(next.drop_last() =~= pixels@.subrange(0, k as int));
            assert(out@ =~= head + pixels_text(next));
        }
    }
    assert(pixels@.subrange(0, pixels@.len() as int) =~= pixels@);
    Some(out)
}

} // verus!
