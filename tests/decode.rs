use media_rs::bmp::{row_padding, BitmapFileHeader, DIBHeader, Signature, BMP};
use media_rs::error::MediaError;
use media_rs::image::{make_buffer, make_gray_buffer, make_rgb_buffer, Pixel};
use media_rs::utils::{read_u16, read_u32, read_u8, ByteSource, Endianness};

fn push_u16_le(out: &mut Vec<u8>, v: u16) {
    out.extend_from_slice(&v.to_le_bytes());
}

fn push_u32_le(out: &mut Vec<u8>, v: u32) {
    out.extend_from_slice(&v.to_le_bytes());
}

/// A file with both headers, then `payload` at offset 54.
fn bmp_file(
    sig: [u8; 2],
    width: u32,
    height: u32,
    bits_per_pixel: u16,
    compression: u32,
    image_size: u32,
    payload: &[u8],
) -> Vec<u8> {
    let mut out = Vec::new();
    out.extend_from_slice(&sig);
    push_u32_le(&mut out, 54 + payload.len() as u32);
    out.extend_from_slice(&[0, 0, 0, 0]);
    push_u32_le(&mut out, 54);
    push_u32_le(&mut out, 40);
    push_u32_le(&mut out, width);
    push_u32_le(&mut out, height);
    push_u16_le(&mut out, 1);
    push_u16_le(&mut out, bits_per_pixel);
    push_u32_le(&mut out, compression);
    push_u32_le(&mut out, image_size);
    push_u32_le(&mut out, 2835);
    push_u32_le(&mut out, 2835);
    push_u32_le(&mut out, 0);
    push_u32_le(&mut out, 0);
    assert_eq!(out.len(), 54);
    out.extend_from_slice(payload);
    out
}

fn decode(bytes: Vec<u8>) -> Result<BMP, MediaError> {
    let mut source = ByteSource::new(bytes);
    BMP::read(&mut source)
}

#[test]
fn gray_payload_without_padding_gives_bytes_in_order() {
    let payload = [10u8, 20, 30, 40, 50, 60];
    let pixels = make_buffer(&payload, 8, 3, 2, 0).unwrap();
    let expected: Vec<Pixel> = payload.iter().map(|&b| Pixel::Gray(b)).collect();
    assert_eq!(pixels, expected);
}

#[test]
fn gray_rows_skip_padding() {
    let payload = [1u8, 2, 3, 0, 4, 5, 6, 0];
    let pixels = make_gray_buffer(&payload, 3, 2, 1);
    assert_eq!(
        pixels,
        vec![
            Pixel::Gray(1),
            Pixel::Gray(2),
            Pixel::Gray(3),
            Pixel::Gray(4),
            Pixel::Gray(5),
            Pixel::Gray(6)
        ]
    );
}

#[test]
fn rgb_rows_keep_blue_green_red_order() {
    let payload = [1u8, 2, 3, 9, 4, 5, 6, 9];
    let pixels = make_rgb_buffer(&payload, 1, 2, 1);
    assert_eq!(pixels, vec![Pixel::BGR(1, 2, 3), Pixel::BGR(4, 5, 6)]);
}

#[test]
fn make_buffer_ignores_bytes_past_the_rows() {
    let payload = [7u8, 8, 9, 99, 99];
    let pixels = make_buffer(&payload, 8, 3, 1, 0).unwrap();
    assert_eq!(pixels, vec![Pixel::Gray(7), Pixel::Gray(8), Pixel::Gray(9)]);
}

#[test]
fn make_buffer_short_payload_is_truncated() {
    let payload = [1u8, 2, 3, 9, 4, 5, 6];
    assert_eq!(make_buffer(&payload, 24, 1, 2, 1), Err(MediaError::Truncated));
}

#[test]
fn make_buffer_rejects_other_depths() {
    let payload = [0u8; 16];
    assert_eq!(make_buffer(&payload, 16, 2, 2, 0), Err(MediaError::UnsupportedDepth(16)));
    assert_eq!(make_buffer(&payload, 4, 2, 2, 0), Err(MediaError::UnsupportedDepth(4)));
}

#[test]
fn make_buffer_empty_geometry() {
    assert_eq!(make_buffer(&[], 24, 0, 5, 0), Ok(vec![]));
    assert_eq!(make_buffer(&[], 8, 7, 0, 1), Ok(vec![]));
}

#[test]
fn padding_for_24_bit_widths() {
    let widths = [1u32, 2, 3, 4, 5, 100];
    let expected = [1u32, 2, 3, 0, 1, 0];
    for (w, p) in widths.iter().zip(expected.iter()) {
        let pad = row_padding(*w, 24);
        assert_eq!(pad, *p);
        assert_eq!((w * 3 + pad) % 4, 0);
    }
}

#[test]
fn padding_for_8_bit_widths() {
    assert_eq!(row_padding(1, 8), 3);
    assert_eq!(row_padding(2, 8), 2);
    assert_eq!(row_padding(3, 8), 1);
    assert_eq!(row_padding(4, 8), 0);
}

#[test]
fn decoded_geometry_reproduces_padding() {
    for w in [1u32, 2, 3, 4, 5, 100] {
        let pad = row_padding(w, 24) as usize;
        let payload = vec![0u8; w as usize * 3 + pad];
        let bmp = decode(bmp_file(*b"BM", w, 1, 24, 0, 0, &payload)).unwrap();
        assert_eq!(bmp.row_padding(), row_padding(w, 24));
        assert_eq!(bmp.content().len(), w as usize);
    }
}

#[test]
fn signature_codes_round_trip() {
    let all = [
        (0x424du16, Signature::BM),
        (0x4241, Signature::BA),
        (0x4349, Signature::CI),
        (0x4350, Signature::CP),
        (0x4943, Signature::IC),
        (0x5054, Signature::PT),
    ];
    for (code, sig) in all {
        assert_eq!(Signature::from_u16(code), Ok(sig));
        assert_eq!(sig.code(), code);
    }
}

#[test]
fn unknown_signature_code_is_rejected() {
    assert_eq!(Signature::from_u16(0x4d42), Err(MediaError::InvalidSignature(0x4d42)));
    assert_eq!(Signature::from_u16(0), Err(MediaError::InvalidSignature(0)));
}

#[test]
fn bm_prefix_passes_the_header_stage() {
    let bmp = decode(bmp_file(*b"BM", 1, 1, 8, 0, 0, &[42, 0, 0, 0])).unwrap();
    assert_eq!(bmp.file_header().signature, Signature::BM);
    assert_eq!(bmp.content(), &[Pixel::Gray(42)]);
}

#[test]
fn other_prefix_fails_with_invalid_signature() {
    let r = decode(bmp_file(*b"XY", 1, 1, 8, 0, 0, &[42, 0, 0, 0]));
    assert_eq!(r.err(), Some(MediaError::InvalidSignature(0x5859)));
    let r = decode(bmp_file(*b"MB", 1, 1, 8, 0, 0, &[42, 0, 0, 0]));
    assert_eq!(r.err(), Some(MediaError::InvalidSignature(0x4d42)));
}

#[test]
fn invalid_signature_reported_before_truncation() {
    assert_eq!(decode(vec![0x00, 0x01]).err(), Some(MediaError::InvalidSignature(1)));
}

fn dib(width: u32, height: u32, bits_per_pixel: u16, image_size: u32) -> DIBHeader {
    DIBHeader {
        dib_header_size: 40,
        width,
        height,
        planes: 1,
        bits_per_pixel,
        compression: 0,
        image_size,
        horizontal_resolution: 0,
        vertical_resolution: 0,
        colors: 0,
        important_colors: 0,
    }
}

#[test]
fn derived_size_when_unspecified() {
    assert_eq!(dib(4, 2, 24, 0).data_size(), Some(24));
}

#[test]
fn derived_size_includes_row_padding() {
    assert_eq!(dib(2, 2, 24, 0).data_size(), Some(16));
    assert_eq!(dib(3, 5, 8, 0).data_size(), Some(20));
}

#[test]
fn declared_size_is_used_when_nonzero() {
    assert_eq!(dib(4, 2, 24, 100).data_size(), Some(100));
}

#[test]
fn derived_size_of_largest_geometry() {
    assert_eq!(dib(u32::MAX, 1, 24, 0).data_size(), Some(0xffff_ffffu64 * 3 + 3));
    assert_eq!(dib(u32::MAX, u32::MAX, 24, 0).data_size(), None);
}

#[test]
fn decode_with_derived_size() {
    let payload: Vec<u8> = (0u8..24).collect();
    let bmp = decode(bmp_file(*b"BM", 4, 2, 24, 0, 0, &payload)).unwrap();
    assert_eq!(bmp.content().len(), 8);
    assert_eq!(bmp.content()[0], Pixel::BGR(0, 1, 2));
    assert_eq!(bmp.content()[7], Pixel::BGR(21, 22, 23));
}

#[test]
fn two_by_two_color_image() {
    // Bottom row first: blue, green; then top row: red, white. Each row has 2 padding bytes.
    let payload = [
        255u8, 0, 0, 0, 255, 0, 0, 0, //
        0, 0, 255, 255, 255, 255, 0, 0,
    ];
    let bmp = decode(bmp_file(*b"BM", 2, 2, 24, 0, 16, &payload)).unwrap();
    assert_eq!(bmp.row_padding(), 2);
    assert_eq!(
        bmp.content(),
        &[
            Pixel::BGR(255, 0, 0),
            Pixel::BGR(0, 255, 0),
            Pixel::BGR(0, 0, 255),
            Pixel::BGR(255, 255, 255)
        ]
    );
    let fh: &BitmapFileHeader = bmp.file_header();
    assert_eq!(fh.offset, 54);
    assert_eq!(fh.file_size, 70);
    assert_eq!(bmp.dib_header().width, 2);
    assert_eq!(bmp.dib_header().height, 2);
}

#[test]
fn file_shorter_than_headers_is_truncated() {
    let full = bmp_file(*b"BM", 2, 2, 24, 0, 16, &[0u8; 16]);
    let r = decode(full[..40].to_vec());
    assert_eq!(r.err(), Some(MediaError::Truncated));
    assert_eq!(decode(vec![]).err(), Some(MediaError::Truncated));
    assert_eq!(decode(vec![0x42]).err(), Some(MediaError::Truncated));
}

#[test]
fn short_payload_is_truncated() {
    let r = decode(bmp_file(*b"BM", 2, 2, 24, 0, 0, &[0u8; 15]));
    assert_eq!(r.err(), Some(MediaError::Truncated));
}

#[test]
fn declared_size_smaller_than_rows_is_truncated() {
    let r = decode(bmp_file(*b"BM", 2, 2, 24, 0, 8, &[0u8; 16]));
    assert_eq!(r.err(), Some(MediaError::Truncated));
}

#[test]
fn offset_past_end_is_truncated() {
    let mut bytes = bmp_file(*b"BM", 1, 1, 8, 0, 0, &[5, 0, 0, 0]);
    bytes[10..14].copy_from_slice(&1000u32.to_le_bytes());
    assert_eq!(decode(bytes).err(), Some(MediaError::Truncated));
}

#[test]
fn payload_read_from_stored_offset() {
    let mut bytes = bmp_file(*b"BM", 1, 1, 8, 0, 0, &[0, 0, 0, 0, 77, 0, 0, 0]);
    bytes[10..14].copy_from_slice(&58u32.to_le_bytes());
    let bmp = decode(bytes).unwrap();
    assert_eq!(bmp.content(), &[Pixel::Gray(77)]);
}

#[test]
fn sixteen_bit_depth_is_unsupported() {
    let r = decode(bmp_file(*b"BM", 2, 2, 16, 0, 0, &[0u8; 8]));
    assert_eq!(r.err(), Some(MediaError::UnsupportedDepth(16)));
}

#[test]
fn compressed_payload_is_unsupported() {
    let r = decode(bmp_file(*b"BM", 2, 2, 8, 1, 0, &[0u8; 8]));
    assert_eq!(r.err(), Some(MediaError::UnsupportedCompression(1)));
}

#[test]
fn read_integers_in_both_byte_orders() {
    let mut src = ByteSource::new(vec![0x01, 0x02, 0x01, 0x02, 0x01, 0x02, 0x03, 0x04, 0x01, 0x02, 0x03, 0x04, 0xff]);
    assert_eq!(read_u16(&mut src, Endianness::LittleEndian), Ok(0x0201));
    assert_eq!(read_u16(&mut src, Endianness::BigEndian), Ok(0x0102));
    assert_eq!(read_u32(&mut src, Endianness::LittleEndian), Ok(0x0403_0201));
    assert_eq!(read_u32(&mut src, Endianness::BigEndian), Ok(0x0102_0304));
    assert_eq!(read_u8(&mut src), Ok(0xff));
    assert_eq!(src.position(), 13);
}

#[test]
fn short_read_is_truncated_and_keeps_cursor() {
    let mut src = ByteSource::new(vec![1, 2, 3]);
    assert_eq!(read_u32(&mut src, Endianness::LittleEndian), Err(MediaError::Truncated));
    assert_eq!(src.position(), 0);
    assert_eq!(read_u16(&mut src, Endianness::BigEndian), Ok(0x0102));
    assert_eq!(read_u16(&mut src, Endianness::BigEndian), Err(MediaError::Truncated));
    assert_eq!(read_u8(&mut src), Ok(3));
    assert_eq!(read_u8(&mut src), Err(MediaError::Truncated));
}

#[test]
fn seek_past_end_then_read_fails() {
    let mut src = ByteSource::new(vec![1, 2, 3]);
    src.seek(10);
    assert_eq!(read_u8(&mut src), Err(MediaError::Truncated));
    src.seek(2);
    assert_eq!(src.read_exact(1), Ok(vec![3]));
    assert_eq!(src.len(), 3);
}
