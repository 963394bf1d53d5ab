use vstd::prelude::*;
use vstd::arithmetic::div_mod::{lemma_fundamental_div_mod, lemma_fundamental_div_mod_converse};

use crate::error::MediaError;

verus! {

/// One decoded pixel. Colour channels keep the on-disk order: blue, green, red.
#[derive(Debug, Clone, Copy, PartialEq, Eq, Structural)]
pub enum Pixel {
    Gray(u8),
    BGR(u8, u8, u8),
}

/// Bytes in one stored row: `width` pixels of `bytes` bytes each, then `padding` filler bytes.
pub open spec fn stride(width: int, bytes: int, padding: int) -> int {
    width * bytes + padding
}

/// Bytes that `height` stored rows take.
pub open spec fn payload_len(width: int, height: int, bytes: int, padding: int) -> int {
    height * stride(width, bytes, padding)
}

/// Offset in the payload of the first byte of the `k`-th pixel in row-major order.
pub open spec fn pixel_offset(width: int, bytes: int, padding: int, k: int) -> int {
    (k / width) * stride(width, bytes, padding) + (k % width) * bytes
}

/// The `k`-th pixel: one gray byte when `bytes` is 1, else blue, green and red bytes.
pub open spec fn pixel_at(buf: Seq<u8>, width: int, bytes: int, padding: int, k: int) -> Pixel {
    let o = pixel_offset(width, bytes, padding, k);
    if bytes == 1 {
        Pixel::Gray(buf[o])
    } else {
        Pixel::BGR(buf[o], buf[o + 1], buf[o + 2])
    }
}

/// The `width * height` pixels stored in `buf`, rows in payload order, padding skipped.
pub open spec fn pixels_of(buf: Seq<u8>, width: int, height: int, bytes: int, padding: int) -> Seq<
    Pixel,
> {
    Seq::new((width * height) as nat, |k: int| pixel_at(buf, width, bytes, padding, k))
}

/// What building from `buf` at `bits_per_pixel` gives: the pixels, or why there are none.
pub open spec fn build_result(
    buf: Seq<u8>,
    bits_per_pixel: u16,
    width: int,
    height: int,
    padding: int,
) -> Result<Seq<Pixel>, MediaError> {
    if bits_per_pixel != 8 && bits_per_pixel != 24 {
        Err(MediaError::UnsupportedDepth(bits_per_pixel))
    } else {
        let bytes = bits_per_pixel / 8;
        if buf.len() < payload_len(width, height, bytes as int, padding) {
            Err(MediaError::Truncated)
        } else {
            Ok(pixels_of(buf, width, height, bytes as int, padding))
        }
    }
}

/// The pixel at (`row`, `col`) starts `row` strides and `col` pixels into the payload,
/// and its last byte lies within `height` strides.
proof fn lemma_pixel_offset(width: int, height: int, bytes: int, padding: int, row: int, col: int)
    requires
        0 <= row < height,
        0 <= col < width,
        bytes >= 1,
        padding >= 0,
    ensures
        pixel_offset(width, bytes, padding, row * width + col) == row * stride(width, bytes, padding)
            + col * bytes,
        row * stride(width, bytes, padding) + col * bytes + bytes <= payload_len(
            width,
            height,
            bytes,
            padding,
        ),
{
    lemma_fundamental_div_mod_converse(row * width + col, width, row, col);
    let s = stride(width, bytes, padding);
    assert(col * bytes + bytes <= width * bytes) by (nonlinear_arith)
        requires
            col < width,
            bytes >= 1,
    ;
    assert((row + 1) * s <= height * s) by (nonlinear_arith)
        requires
            row + 1 <= height,
            s >= 0,
    ;
    assert((row + 1) * s == row * s + s) by (nonlinear_arith);
    assert(s >= width * bytes);
}

/// Collects `height` rows of `width` pixels of `bytes` bytes each, skipping `padding`
/// bytes after each row.
fn collect_rows(buffer: &[u8], width: usize, height: usize, bytes: usize, padding: usize) -> (r: Vec<
    Pixel,
>)
    requires
        bytes == 1 || bytes == 3,
        buffer@.len() >= payload_len(width as int, height as int, bytes as int, padding as int),
    ensures
        r@ == pixels_of(buffer@, width as int, height as int, bytes as int, padding as int),
{
    let ghost w = width as int;
    let ghost s = stride(width as int, bytes as int, padding as int);
    let mut out: Vec<Pixel> = Vec::new();
    let mut offset: usize = 0;
    let mut row: usize = 0;
    while row < height
        invariant
            bytes == 1 || bytes == 3,
            w == width,
            s == stride(width as int, bytes as int, padding as int),
            buffer@.len() >= payload_len(width as int, height as int, bytes as int, padding as int),
            row <= height,
            offset == row * s,
            out@.len() == row * w,
            forall|k: int|
                0 <= k < out@.len() ==> out@[k] == pixel_at(
                    buffer@,
                    w,
                    bytes as int,
                    padding as int,
                    k,
                ),
        decreases height - row,
    {
        let mut col: usize = 0;
        while col < width
            invariant
                bytes == 1 || bytes == 3,
                w == width,
                s == stride(width as int, bytes as int, padding as int),
                buffer@.len() >= payload_len(
                    width as int,
                    height as int,
                    bytes as int,
                    padding as int,
                ),
                row < height,
                col <= width,
                offset == row * s + col * bytes,
                out@.len() == row * w + col,
                forall|k: int|
                    0 <= k < out@.len() ==> out@[k] == pixel_at(
                        buffer@,
                        w,
                        bytes as int,
                        padding as int,
                        k,
                    ),
            decreases width - col,
        {
            proof {
                lemma_pixel_offset(w, height as int, bytes as int, padding as int, row as int, col as int);
            }
            let p = if bytes == 1 {
                Pixel::Gray(buffer[offset])
            } else {
                Pixel::BGR(buffer[offset], buffer[offset + 1], buffer[offset + 2])
            };
            out.push(p);
            offset = offset + bytes;
            col = col + 1;
            assert(offset == row * s + col * bytes) by (nonlinear_arith)
                requires
                    offset == row * s + (col - 1) * bytes + bytes,
            ;
        }
        proof {
            assert((row + 1) * s <= height * s) by (nonlinear_arith)
                requires
                    row + 1 <= height,
                    s >= 0,
            ;
            assert((row + 1) * s == row * s + s) by (nonlinear_arith);
            assert((row + 1) * w == row * w + w) by (nonlinear_arith);
            assert(offset + padding <= buffer.len());
        }
        offset = offset + padding;
        row = row + 1;
    }
    proof {
        assert(height * w == w * height) by (nonlinear_arith);
    }
    assert(out@ =~= pixels_of(buffer@, width as int, height as int, bytes as int, padding as int));
    out
}

/// One `Gray` pixel per byte, `width` per row, skipping `padding` bytes after each row.
pub fn make_gray_buffer(buffer: &[u8], width: usize, height: usize, padding: usize) -> (r: Vec<
    Pixel,
>)
    requires
        buffer@.len() >= payload_len(width as int, height as int, 1, padding as int),
    ensures
        r@ == pixels_of(buffer@, width as int, height as int, 1, padding as int),
{
    collect_rows(buffer, width, height, 1, padding)
}

/// One `BGR` pixel per three bytes (blue, green, red), `width` per row, skipping `padding`
/// bytes after each row.
pub fn make_rgb_buffer(buffer: &[u8], width: usize, height: usize, padding: usize) -> (r: Vec<
    Pixel,
>)
    requires
        buffer@.len() >= payload_len(width as int, height as int, 3, padding as int),
    ensures
        r@ == pixels_of(buffer@, width as int, height as int, 3, padding as int),
{
    collect_rows(buffer, width, height, 3, padding)
}

/// A built buffer as a sequence of pixels, or the error.
pub open spec fn pixels_view(r: Result<Vec<Pixel>, MediaError>) -> Result<Seq<Pixel>, MediaError> {
    match r {
        Ok(v) => Ok(v@),
        Err(e) => Err(e),
    }
}

/// Whether `height` rows of `width` pixels of `bytes` bytes plus `padding` fit in `len`
/// bytes, computed without overflow.
fn rows_fit(len: usize, width: usize, height: usize, bytes: usize, padding: usize) -> (r: bool)
    requires
        bytes == 1 || bytes == 3,
    ensures
        r == (len >= payload_len(width as int, height as int, bytes as int, padding as int)),
{
    if height == 0 {
        return true;
    }
    assert(height * stride(width as int, bytes as int, padding as int) >= stride(
        width as int,
        bytes as int,
        padding as int,
    )) by (nonlinear_arith)
        requires
            height >= 1,
            stride(width as int, bytes as int, padding as int) >= 0,
    ;
    match width.checked_mul(bytes) {
        None => false,
        Some(row_bytes) => match row_bytes.checked_add(padding) {
            None => false,
            Some(row_stride) => match height.checked_mul(row_stride) {
                None => false,
                Some(total) => total <= len,
            },
        },
    }
}

/// Builds the pixels of `buffer`, whose rows hold `width` pixels at `bits_per_pixel` and
/// end in `padding` filler bytes, for `height` rows in payload order. Fails with
/// `UnsupportedDepth` unless the depth is 8 or 24, and with `Truncated` when `buffer` is
/// shorter than `height` padded rows; bytes beyond those rows are ignored.
pub fn make_buffer(
    buffer: &[u8],
    bits_per_pixel: u16,
    width: usize,
    height: usize,
    padding: usize,
) -> (r: Result<Vec<Pixel>, MediaError>)
    ensures
        pixels_view(r) == build_result(
            buffer@,
            bits_per_pixel,
            width as int,
            height as int,
            padding as int,
        ),
{
    if bits_per_pixel == 8 {
        if !rows_fit(buffer.len(), width, height, 1, padding) {
            return Err(MediaError::Truncated);
        }
        Ok(make_gray_buffer(buffer, width, height, padding))
    } else if bits_per_pixel == 24 {
        if !rows_fit(buffer.len(), width, height, 3, padding) {
            return Err(MediaError::Truncated);
        }
        Ok(make_rgb_buffer(buffer, width, height, padding))
    } else {
        Err(MediaError::UnsupportedDepth(bits_per_pixel))
    }
}

/// An 8-bit payload of exactly `width * height` bytes built without row padding gives one
/// `Gray` pixel per byte, equal to the bytes in order.
pub proof fn lemma_gray_unpadded(buf: Seq<u8>, width: int, height: int)
    requires
        width >= 0,
        height >= 0,
        buf.len() == width * height,
    ensures
        build_result(buf, 8, width, height, 0) == Ok::<Seq<Pixel>, MediaError>(
            buf.map(|i: int, b: u8| Pixel::Gray(b)),
        ),
{
    assert(height * (width * 1 + 0) == width * height) by (nonlinear_arith);
    let ps = pixels_of(buf, width, height, 1, 0);
    assert forall|k: int| 0 <= k < ps.len() implies ps[k] == Pixel::Gray(buf[k]) by {
        assert(width != 0) by (nonlinear_arith)
            requires
                0 <= k < width * height,
        ;
        lemma_fundamental_div_mod(k, width);
        assert((k / width) * (width * 1 + 0) == width * (k / width)) by (nonlinear_arith);
    }
    assert(ps =~= buf.map(|i: int, b: u8| Pixel::Gray(b)));
}

} // verus!
