//! A frame as a binary PPM image.

use vstd::prelude::*;

use crate::kms::scanout::{
    has_room, scanout_shows_rendered_color, xrgb_color_at, ScanoutLayout, TargetFormat,
};

verus! {

/// The codes of the characters of an ASCII text.
pub open spec fn ascii(s: Seq<char>) -> Seq<u8> {
    s.map_values(|c: char| c as u8)
}

/// The ASCII code of the digit `d`.
pub open spec fn digit(d: int) -> u8 {
    (48 + d) as u8
}

/// `n` in decimal notation, as ASCII.
pub open spec fn decimal(n: nat) -> Seq<u8>
    decreases n,
{
    if n < 10 {
        seq![digit(n as int)]
    } else {
        decimal(n / 10).push(digit((n % 10) as int))
    }
}

/// The header of a PPM image with 255 as its largest sample.
pub open spec fn ppm_header_bytes(width: nat, height: nat) -> Seq<u8> {
    ascii("P6\n"@) + decimal(width) + ascii(" "@) + decimal(height) + ascii("\n255\n"@)
}

/// Sample `i` of the body: of every pixel, row by row, first red, then green, then blue.
pub open spec fn ppm_sample(map: Seq<u8>, width: int, pitch: int, i: int) -> u8 {
    let (r, g, b) = xrgb_color_at(
        map,
        (i / 3 / width) * pitch + 4 * ((i / 3) % width),
    );
    if i % 3 == 0 {
        r
    } else if i % 3 == 1 {
        g
    } else {
        b
    }
}

/// The body of a PPM image of the pixels in a mapped XRGB8888 buffer.
pub open spec fn ppm_body_bytes(map: Seq<u8>, width: int, height: int, pitch: int) -> Seq<u8> {
    Seq::new((3 * (height * width)) as nat, |i: int| ppm_sample(map, width, pitch, i))
}

fn push_ascii(out: &mut Vec<u8>, s: &str)
    ensures
        final(out)@ == old(out)@ + ascii(s@),
{
    let ghost before = out@;
    for c in it: s.chars()
        invariant
            it.seq() == s@,
            out@ == before + ascii(s@.take(it.index())),
    {
        proof {
            assert(s@.take(it.index() + 1) =~= s@.take(it.index()).push(c));
        }
        out.push(c as u8);
        assert(out@ =~= before + ascii(s@.take(it.index() + 1)));
    }
    assert(s@.take(s@.len() as int) =~= s@);
}

fn push_decimal(out: &mut Vec<u8>, n: u32)
    ensures
        final(out)@ == old(out)@ + decimal(n as nat),
    decreases n,
{
    if n >= 10 {
        push_decimal(out, n / 10);
    }
    out.push(48 + (n % 10) as u8);
    assert(out@ =~= old(out)@ + decimal(n as nat));
}

/// The header of a PPM image of this size.
pub fn ppm_header(width: u32, height: u32) -> (header: Vec<u8>)
    ensures
        header@ == ppm_header_bytes(width as nat, height as nat),
{
    let mut out: Vec<u8> = Vec::new();
    push_ascii(&mut out, "P6\n");
    push_decimal(&mut out, width);
    push_ascii(&mut out, " ");
    push_decimal(&mut out, height);
    push_ascii(&mut out, "\n255\n");
    assert(out@ =~= ppm_header_bytes(width as nat, height as nat));
    out
}

/// The body of a PPM image of the pixels in a mapped XRGB8888 buffer.
pub fn ppm_body(map: &[u8], width: u32, height: u32, pitch: u32) -> (body: Vec<u8>)
    requires
        1 <= width,
        1 <= height,
        4 * width <= usize::MAX,
        has_room(map@.len() as int, height as int, pitch as int, 4 * width),
    ensures
        body@ == ppm_body_bytes(map@, width as int, height as int, pitch as int),
{
    let mut out: Vec<u8> = Vec::new();
    let w: usize = width as usize;
    let h: usize = height as usize;
    let stride: usize = pitch as usize;
    let mut y: usize = 0;
    while y < h
        invariant
            y <= h,
            h == height,
            w == width,
            1 <= w,
            4 * w <= usize::MAX,
            stride == pitch,
            has_room(map@.len() as int, h as int, stride as int, 4 * w),
            out@.len() == 3 * (y * w),
            forall|i: int|
                0 <= i < out@.len() ==> #[trigger] out@[i] == ppm_sample(
                    map@,
                    w as int,
                    stride as int,
                    i,
                ),
        decreases h - y,
    {
        assert(y * stride + 4 * w <= map.len()) by {
            assert(y * stride <= (h - 1) * stride) by (nonlinear_arith)
                requires
                    y <= h - 1,
                    0 <= stride,
            ;
        }
        let row: usize = y * stride;
        let mut x: usize = 0;
        while x < w
            invariant
                x <= w,
                1 <= w,
                row == y * stride,
                row + 4 * w <= map.len(),
                out@.len() == 3 * (y * w + x),
                forall|i: int|
                    0 <= i < out@.len() ==> #[trigger] out@[i] == ppm_sample(
                        map@,
                        w as int,
                        stride as int,
                        i,
                    ),
            decreases w - x,
        {
            proof {
                let p = y * w + x;
                assert(p / w as int == y && p % w as int == x) by (nonlinear_arith)
                    requires
                        p == y * w + x,
                        0 <= x < w,
                ;
                assert((3 * p) / 3 == p && (3 * p + 1) / 3 == p && (3 * p + 2) / 3 == p);
            }
            let at: usize = row + x * 4;
            out.push(map[at + 2]);
            out.push(map[at + 1]);
            out.push(map[at]);
            x += 1;
        }
        assert((y + 1) * w == y * w + w) by (nonlinear_arith);
        y += 1;
    }
    assert(out@ =~= ppm_body_bytes(map@, width as int, height as int, pitch as int));
    out
}

/// The image that a frame is saved as shows what was rendered: the samples of its pixel at
/// (`x`, `y`) are the red, green and blue of the rendered pixel at (`x`, `y`), wherever that
/// pixel is copied and the rows of the dumb buffer do not overlap.
pub proof fn saved_frame_shows_rendered_color(
    layout: ScanoutLayout,
    format: TargetFormat,
    data: Seq<u8>,
    map: Seq<u8>,
    x: int,
    y: int,
)
    requires
        layout.wf(),
        layout.dumb_pitch >= layout.row_len(),
        layout.readback_fits(data.len() as int),
        layout.dumb_fits(map.len() as int),
        0 <= x < layout.width,
        4 * x + 4 <= layout.row_len(),
        0 <= y < layout.height,
    ensures
        ({
            let body = ppm_body_bytes(
                layout.scanned_out(format, data, map),
                layout.width as int,
                layout.height as int,
                layout.dumb_pitch as int,
            );
            let p = 3 * (y * layout.width + x);
            &&& 0 <= p
            &&& p + 3 <= body.len()
            &&& (body[p], body[p + 1], body[p + 2]) == format.color_at(
                data,
                y * layout.copy_bpr + 4 * x,
            )
        }),
{
    let w = layout.width as int;
    let h = layout.height as int;
    let q = y * w + x;
    assert(q / w == y && q % w == x && 0 <= q && q + 1 <= h * w) by (nonlinear_arith)
        requires
            q == y * w + x,
            0 <= x < w,
            0 <= y < h,
    ;
    assert((3 * q) / 3 == q && (3 * q + 1) / 3 == q && (3 * q + 2) / 3 == q);
    scanout_shows_rendered_color(layout, format, data, map, x, y);
}

/// The number that ASCII digits stand for.
pub open spec fn number(digits: Seq<u8>) -> int
    decreases digits.len(),
{
    if digits.len() == 0 {
        0
    } else {
        10 * number(digits.drop_last()) + (digits.last() - 48)
    }
}

/// The bytes are a number in decimal notation: digits, at least one of them, and no zero in front
/// of others.
pub open spec fn is_decimal(digits: Seq<u8>) -> bool {
    &&& digits.len() > 0
    &&& forall|i: int| 0 <= i < digits.len() ==> 48 <= #[trigger] digits[i] <= 57
    &&& digits.len() > 1 ==> digits[0] != 48
}

proof fn decimals_are_canonical(n: nat)
    ensures
        is_decimal(decimal(n)),
        number(decimal(n)) == n,
        n > 0 ==> decimal(n)[0] != 48,
    decreases n,
{
    if n < 10 {
        assert(decimal(n).drop_last() =~= Seq::<u8>::empty());
        assert(number(decimal(n).drop_last()) == 0);
    } else {
        let front = decimal(n / 10);
        decimals_are_canonical(n / 10);
        assert(decimal(n) == front.push(digit((n % 10) as int)));
        assert(decimal(n).drop_last() =~= front);
        assert(decimal(n)[0] == front[0]);
    }
}

/// The bytes are "P6" and a line break, `w`, a blank, `h`, and a line with 255 on it.
pub open spec fn is_header(bytes: Seq<u8>, w: Seq<u8>, h: Seq<u8>) -> bool {
    bytes == seq![80u8, 54u8, 10u8] + w + seq![32u8] + h + seq![10u8, 50u8, 53u8, 53u8, 10u8]
}

/// A header is made of "P6" and a line break, the width in decimal notation, a blank, the height
/// in decimal notation, and a line with 255 on it.
pub proof fn a_header_holds_width_and_height(width: nat, height: nat)
    ensures
        exists|w: Seq<u8>, h: Seq<u8>| #[trigger]
            is_header(ppm_header_bytes(width, height), w, h) && is_decimal(w) && is_decimal(h)
                && number(w) == width && number(h) == height,
{
    reveal_strlit("P6\n");
    reveal_strlit(" ");
    reveal_strlit("\n255\n");
    decimals_are_canonical(width);
    decimals_are_canonical(height);
    assert(ascii("P6\n"@) =~= seq![80u8, 54u8, 10u8]);
    assert(ascii(" "@) =~= seq![32u8]);
    assert(ascii("\n255\n"@) =~= seq![10u8, 50u8, 53u8, 53u8, 10u8]);
    assert(is_header(ppm_header_bytes(width, height), decimal(width), decimal(height)));
}

/// A body holds three bytes for every pixel, row by row: those of the pixel at (`x`, `y`) of the
/// mapped buffer in the opposite order, without the fourth.
pub proof fn a_body_holds_the_pixels_row_by_row(
    map: Seq<u8>,
    width: int,
    height: int,
    pitch: int,
    x: int,
    y: int,
)
    requires
        0 <= x < width,
        0 <= y < height,
    ensures
        ({
            let body = ppm_body_bytes(map, width, height, pitch);
            let p = 3 * (y * width + x);
            let at = y * pitch + 4 * x;
            &&& body.len() == 3 * (height * width)
            &&& 0 <= p
            &&& p + 3 <= body.len()
            &&& body[p] == map[at + 2]
            &&& body[p + 1] == map[at + 1]
            &&& body[p + 2] == map[at]
        }),
{
    let q = y * width + x;
    assert(q / width == y && q % width == x && 0 <= q && q + 1 <= height * width)
        by (nonlinear_arith)
        requires
            q == y * width + x,
            0 <= x < width,
            0 <= y < height,
    ;
    assert((3 * q) / 3 == q && (3 * q + 1) / 3 == q && (3 * q + 2) / 3 == q);
}

} // verus!
