use vstd::prelude::*;

verus! {

/// ASCII code of the digit `0`.
pub const ASCII_ZERO: u8 = 48;

/// ASCII code of a space.
pub const SPACE: u8 = 32;

/// ASCII code of a line feed.
pub const NEWLINE: u8 = 10;

/// ASCII code of the letter `P` that opens the magic number `P3`.
pub const LETTER_P: u8 = 80;

/// Largest channel value, written in the header.
pub const MAX_VALUE: u32 = 255;

/// ASCII decimal digits of `n`, most significant first, without leading
/// zeros (`0` is the single digit `"0"`).
pub open spec fn decimal(n: nat) -> Seq<u8>
    decreases n,
{
    if n < 10 {
        seq![(n + ASCII_ZERO) as u8]
    } else {
        decimal(n / 10).push((n % 10 + ASCII_ZERO) as u8)
    }
}

/// `"P3\n<width> <height>\n255\n"`.
pub open spec fn ppm_header(width: nat, height: nat) -> Seq<u8> {
    seq![LETTER_P] + decimal(3) + seq![NEWLINE] + decimal(width) + seq![SPACE] + decimal(height)
        + seq![NEWLINE] + decimal(MAX_VALUE as nat) + seq![NEWLINE]
}

/// `"<r> <g> <b>\n"`.
pub open spec fn pixel_line(r: u8, g: u8, b: u8) -> Seq<u8> {
    decimal(r as nat) + seq![SPACE] + decimal(g as nat) + seq![SPACE] + decimal(b as nat) + seq![
        NEWLINE,
    ]
}

/// One line for each of the first `count` pixels of `rgb`, three bytes each.
pub open spec fn pixel_lines(rgb: Seq<u8>, count: nat) -> Seq<u8>
    decreases count,
{
    if count == 0 {
        Seq::empty()
    } else {
        pixel_lines(rgb, (count - 1) as nat) + pixel_line(
            rgb[3 * count - 3],
            rgb[3 * count - 2],
            rgb[3 * count - 1],
        )
    }
}

/// The plain (P3) PPM text of a `width` by `height` raster.
pub open spec fn ppm_text(width: nat, height: nat, rgb: Seq<u8>) -> Seq<u8> {
    ppm_header(width, height) + pixel_lines(rgb, width * height)
}

/// Appends the decimal digits of `n` to `out`.
pub fn push_decimal(out: &mut Vec<u8>, n: u32)
    ensures
        final(out)@ == old(out)@ + decimal(n as nat),
    decreases n,
{
    if n >= 10 {
        push_decimal(out, n / 10);
    }
    let digit = (n % 10) as u8 + ASCII_ZERO;
    out.push(digit);
    proof {
        if n >= 10 {
            assert(old(out)@ + decimal(n as nat) =~= old(out)@ + decimal((n / 10) as nat) + seq![digit]);
        } else {
            assert(old(out)@ + decimal(n as nat) =~= old(out)@ + seq![digit]);
        }
    }
}

/// The PPM text of a raster whose `rgb` bytes run row by row, top row first,
/// three per pixel.
pub fn encode_ppm(width: u32, height: u32, rgb: &Vec<u8>) -> (r: Vec<u8>)
    requires
        rgb@.len() == 3 * width * height,
    ensures
        r@ == ppm_text(width as nat, height as nat, rgb@),
{
    let mut out: Vec<u8> = Vec::new();
    out.push(LETTER_P);
    push_decimal(&mut out, 3);
    out.push(NEWLINE);
    push_decimal(&mut out, width);
    out.push(SPACE);
    push_decimal(&mut out, height);
    out.push(NEWLINE);
    push_decimal(&mut out, MAX_VALUE);
    out.push(NEWLINE);
    let ghost header = out@;
    assert(header =~= ppm_header(width as nat, height as nat));
    let len = rgb.len();
    let count = len / 3;
    assert(len == 3 * (width * height)) by (nonlinear_arith)
        requires
            len == 3 * width * height,
    ;
    let mut k: usize = 0;
    while k < count
        invariant
            k <= count,
            count == width * height,
            rgb@.len() == 3 * count,
            len == rgb@.len(),
            header == ppm_header(width as nat, height as nat),
            out@ == header + pixel_lines(rgb@, k as nat),
        decreases count - k,
    {
        let ghost before = out@;
        let idx = 3 * k;
        push_decimal(&mut out, rgb[idx] as u32);
        out.push(SPACE);
        push_decimal(&mut out, rgb[idx + 1] as u32);
        out.push(SPACE);
        push_decimal(&mut out, rgb[idx + 2] as u32);
        out.push(NEWLINE);
        assert(out@ =~= before + pixel_line(rgb@[3 * k], rgb@[3 * k + 1], rgb@[3 * k + 2]));
        assert(pixel_lines(rgb@, (k + 1) as nat) == pixel_lines(rgb@, k as nat) + pixel_line(
            rgb@[3 * k],
            rgb@[3 * k + 1],
            rgb@[3 * k + 2],
        ));
        assert(out@ =~= header + pixel_lines(rgb@, (k + 1) as nat));
        k = k + 1;
    }
    out
}

} // verus!
