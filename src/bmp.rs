use vstd::prelude::*;

use crate::error::MediaError;
use crate::image::{build_result, make_buffer, Pixel};
use crate::utils::{be16, le16, le32, read_u16, read_u32, ByteSource, Endianness};

verus! {

/// The two-character format marker at the start of a file.
#[derive(Debug, Clone, Copy, PartialEq, Eq, Structural)]
pub enum Signature {
    /// Windows 3.1x, 95, NT and later.
    BM,
    /// OS/2 bitmap array.
    BA,
    /// OS/2 color icon.
    CI,
    /// OS/2 color pointer.
    CP,
    /// OS/2 icon.
    IC,
    /// OS/2 pointer.
    PT,
}

/// The signature whose code, read big-endian, is `code`, if any.
pub open spec fn signature_of(code: int) -> Option<Signature> {
    if code == 0x424d {
        Some(Signature::BM)
    } else if code == 0x4241 {
        Some(Signature::BA)
    } else if code == 0x4349 {
        Some(Signature::CI)
    } else if code == 0x4350 {
        Some(Signature::CP)
    } else if code == 0x4943 {
        Some(Signature::IC)
    } else if code == 0x5054 {
        Some(Signature::PT)
    } else {
        None
    }
}

impl Signature {
    pub open spec fn spec_code(self) -> u16 {
        match self {
            Signature::BM => 0x424d,
            Signature::BA => 0x4241,
            Signature::CI => 0x4349,
            Signature::CP => 0x4350,
            Signature::IC => 0x4943,
            Signature::PT => 0x5054,
        }
    }

    /// The 16-bit code of this signature: its two ASCII characters read big-endian.
    pub fn code(&self) -> (r: u16)
        ensures
            r == self.spec_code(),
            signature_of(r as int) == Some(*self),
    {
        match self {
            Signature::BM => 0x424d,
            Signature::BA => 0x4241,
            Signature::CI => 0x4349,
            Signature::CP => 0x4350,
            Signature::IC => 0x4943,
            Signature::PT => 0x5054,
        }
    }

    /// The signature with code `value`; `InvalidSignature(value)` when none has it.
    pub fn from_u16(value: u16) -> (r: Result<Signature, MediaError>)
        ensures
            signature_of(value as int) is Some ==> r == Ok::<Signature, MediaError>(
                signature_of(value as int)->0,
            ),
            signature_of(value as int) is None ==> r == Err::<Signature, MediaError>(
                MediaError::InvalidSignature(value),
            ),
    {
        match value {
            0x424d => Ok(Signature::BM),
            0x4241 => Ok(Signature::BA),
            0x4349 => Ok(Signature::CI),
            0x4350 => Ok(Signature::CP),
            0x4943 => Ok(Signature::IC),
            0x5054 => Ok(Signature::PT),
            _ => Err(MediaError::InvalidSignature(value)),
        }
    }
}

/// The 14-byte file header.
#[derive(Debug, Clone, Copy, PartialEq, Eq, Structural)]
pub struct BitmapFileHeader {
    pub signature: Signature,
    /// Total size of the file in bytes.
    pub file_size: u32,
    /// Application-defined; read big-endian.
    pub reserved1: u16,
    /// Application-defined; read big-endian.
    pub reserved2: u16,
    /// Absolute offset of the pixel payload.
    pub offset: u32,
}

/// The 40-byte device-independent bitmap header that follows the file header.
#[derive(Debug, Clone, Copy, PartialEq, Eq, Structural)]
pub struct DIBHeader {
    pub dib_header_size: u32,
    pub width: u32,
    pub height: u32,
    pub planes: u16,
    pub bits_per_pixel: u16,
    pub compression: u32,
    /// Declared size of the pixel payload; 0 when unspecified.
    pub image_size: u32,
    pub horizontal_resolution: u32,
    pub vertical_resolution: u32,
    pub colors: u32,
    pub important_colors: u32,
}

/// Bytes of both headers together.
pub open spec fn headers_len() -> int {
    54
}

/// The file header stored at the start of `s`, given its parsed signature.
pub open spec fn file_header_of(s: Seq<u8>, signature: Signature) -> BitmapFileHeader {
    BitmapFileHeader {
        signature,
        file_size: le32(s, 2) as u32,
        reserved1: be16(s, 6) as u16,
        reserved2: be16(s, 8) as u16,
        offset: le32(s, 10) as u32,
    }
}

/// The DIB header stored at offset 14 of `s`.
pub open spec fn dib_header_of(s: Seq<u8>) -> DIBHeader {
    DIBHeader {
        dib_header_size: le32(s, 14) as u32,
        width: le32(s, 18) as u32,
        height: le32(s, 22) as u32,
        planes: le16(s, 26) as u16,
        bits_per_pixel: le16(s, 28) as u16,
        compression: le32(s, 30) as u32,
        image_size: le32(s, 34) as u32,
        horizontal_resolution: le32(s, 38) as u32,
        vertical_resolution: le32(s, 42) as u32,
        colors: le32(s, 46) as u32,
        important_colors: le32(s, 50) as u32,
    }
}

/// Filler bytes after a row of `width` pixels of `bytes` bytes, to reach a multiple of 4.
pub open spec fn padding_of(width: int, bytes: int) -> int {
    (4 - (width * bytes) % 4) % 4
}

/// Size of the pixel payload: the declared size when nonzero, else `height` padded rows.
pub open spec fn data_size_of(dib: DIBHeader) -> int {
    if dib.image_size != 0 {
        dib.image_size as int
    } else {
        let bytes = dib.bits_per_pixel / 8;
        dib.height * (dib.width * bytes + padding_of(dib.width as int, bytes as int))
    }
}

/// A decoded image as its two headers and its pixels.
pub type ImageModel = (BitmapFileHeader, DIBHeader, Seq<Pixel>);

/// What decoding the bytes `s` gives: the image, or the first failure met.
pub open spec fn decode_result(s: Seq<u8>) -> Result<ImageModel, MediaError> {
    if s.len() < 2 {
        Err(MediaError::Truncated)
    } else if signature_of(be16(s, 0)) is None {
        Err(MediaError::InvalidSignature(be16(s, 0) as u16))
    } else if s.len() < headers_len() {
        Err(MediaError::Truncated)
    } else {
        let fh = file_header_of(s, signature_of(be16(s, 0))->0);
        let dib = dib_header_of(s);
        let bpp = dib.bits_per_pixel;
        if bpp != 8 && bpp != 24 {
            Err(MediaError::UnsupportedDepth(bpp))
        } else if dib.compression != 0 {
            Err(MediaError::UnsupportedCompression(dib.compression))
        } else {
            let start = fh.offset as int;
            let size = data_size_of(dib);
            if start + size > s.len() {
                Err(MediaError::Truncated)
            } else {
                match build_result(
                    s.subrange(start, start + size),
                    bpp,
                    dib.width as int,
                    dib.height as int,
                    padding_of(dib.width as int, (bpp / 8) as int),
                ) {
                    Ok(px) => Ok((fh, dib, px)),
                    Err(e) => Err(e),
                }
            }
        }
    }
}

/// Filler bytes after each stored row of `width` pixels at `bits_per_pixel`.
pub fn row_padding(width: u32, bits_per_pixel: u16) -> (r: u32)
    ensures
        r == padding_of(width as int, (bits_per_pixel / 8) as int),
        r < 4,
{
    let bytes: u64 = (bits_per_pixel / 8) as u64;
    assert(width * bytes <= 0xffff_ffff * 0x2000) by (nonlinear_arith)
        requires
            width <= 0xffff_ffff,
            bytes <= 0x2000,
    ;
    let row_bytes: u64 = width as u64 * bytes;
    ((4 - row_bytes % 4) % 4) as u32
}

impl DIBHeader {
    /// Size of the pixel payload in bytes (see `data_size_of`); `None` when it exceeds `u64`.
    pub fn data_size(&self) -> (r: Option<u64>)
        ensures
            data_size_of(*self) <= u64::MAX ==> r == Some(data_size_of(*self) as u64),
            data_size_of(*self) > u64::MAX ==> r is None,
    {
        if self.image_size != 0 {
            return Some(self.image_size as u64);
        }
        let bytes: u64 = (self.bits_per_pixel / 8) as u64;
        let padding: u64 = row_padding(self.width, self.bits_per_pixel) as u64;
        assert(self.width * bytes <= 0xffff_ffff * 0x2000) by (nonlinear_arith)
            requires
                self.width <= 0xffff_ffff,
                bytes <= 0x2000,
        ;
        let row_stride: u64 = self.width as u64 * bytes + padding;
        (self.height as u64).checked_mul(row_stride)
    }
}

/// A decoded image: its headers and its pixels, row-major, rows in stored (bottom-up) order.
pub struct BMP {
    bitmap_file_header: BitmapFileHeader,
    dib_header: DIBHeader,
    content: Vec<Pixel>,
}

impl View for BMP {
    type V = ImageModel;

    closed spec fn view(&self) -> ImageModel {
        (self.bitmap_file_header, self.dib_header, self.content@)
    }
}

/// A decode outcome as a model of the image, or the error.
pub open spec fn bmp_view(r: Result<BMP, MediaError>) -> Result<ImageModel, MediaError> {
    match r {
        Ok(b) => Ok(b@),
        Err(e) => Err(e),
    }
}

impl BMP {
    /// Decodes the whole of `source` from its first byte: both headers, then the pixel
    /// payload at the offset the file header gives. The source's bytes are left as they were.
    pub fn read(source: &mut ByteSource) -> (r: Result<BMP, MediaError>)
        ensures
            bmp_view(r) == decode_result(old(source)@.0),
            final(source)@.0 == old(source)@.0,
    {
        source.seek(0);
        let code = read_u16(source, Endianness::BigEndian)?;
        let signature = Signature::from_u16(code)?;
        let bitmap_file_header = BitmapFileHeader {
            signature,
            file_size: read_u32(source, Endianness::LittleEndian)?,
            reserved1: read_u16(source, Endianness::BigEndian)?,
            reserved2: read_u16(source, Endianness::BigEndian)?,
            offset: read_u32(source, Endianness::LittleEndian)?,
        };
        let dib_header = DIBHeader {
            dib_header_size: read_u32(source, Endianness::LittleEndian)?,
            width: read_u32(source, Endianness::LittleEndian)?,
            height: read_u32(source, Endianness::LittleEndian)?,
            planes: read_u16(source, Endianness::LittleEndian)?,
            bits_per_pixel: read_u16(source, Endianness::LittleEndian)?,
            compression: read_u32(source, Endianness::LittleEndian)?,
            image_size: read_u32(source, Endianness::LittleEndian)?,
            horizontal_resolution: read_u32(source, Endianness::LittleEndian)?,
            vertical_resolution: read_u32(source, Endianness::LittleEndian)?,
            colors: read_u32(source, Endianness::LittleEndian)?,
            important_colors: read_u32(source, Endianness::LittleEndian)?,
        };
        let bits_per_pixel = dib_header.bits_per_pixel;
        if bits_per_pixel != 8 && bits_per_pixel != 24 {
            return Err(MediaError::UnsupportedDepth(bits_per_pixel));
        }
        if dib_header.compression != 0 {
            return Err(MediaError::UnsupportedCompression(dib_header.compression));
        }
        let len = source.len();
        let size = match dib_header.data_size() {
            Some(n) => n,
            None => {
                assert(len <= u64::MAX);
                return Err(MediaError::Truncated);
            },
        };
        let offset = bitmap_file_header.offset as usize;
        if offset > len || size > (len - offset) as u64 {
            return Err(MediaError::Truncated);
        }
        source.seek(offset);
        let payload = source.read_exact(size as usize)?;
        let padding = row_padding(dib_header.width, bits_per_pixel);
        let content = make_buffer(
            payload.as_slice(),
            bits_per_pixel,
            dib_header.width as usize,
            dib_header.height as usize,
            padding as usize,
        )?;
        Ok(BMP { bitmap_file_header, dib_header, content })
    }

    pub fn file_header(&self) -> (r: &BitmapFileHeader)
        ensures
            *r == self@.0,
    {
        &self.bitmap_file_header
    }

    pub fn dib_header(&self) -> (r: &DIBHeader)
        ensures
            *r == self@.1,
    {
        &self.dib_header
    }

    /// The pixels, row-major, rows in stored order.
    pub fn content(&self) -> (r: &[Pixel])
        ensures
            r@ == self@.2,
    {
        self.content.as_slice()
    }

    /// Filler bytes after each stored row, recomputed from the decoded geometry.
    pub fn row_padding(&self) -> (r: u32)
        ensures
            r == padding_of(self@.1.width as int, (self@.1.bits_per_pixel / 8) as int),
    {
        row_padding(self.dib_header.width, self.dib_header.bits_per_pixel)
    }
}

/// A successful decode holds exactly `width * height` pixels.
pub proof fn lemma_decoded_pixel_count(s: Seq<u8>)
    requires
        decode_result(s) is Ok,
    ensures
        decode_result(s)->Ok_0.2.len() == decode_result(s)->Ok_0.1.width as int
            * decode_result(s)->Ok_0.1.height as int,
{
    assert(dib_header_of(s).width * dib_header_of(s).height >= 0) by (nonlinear_arith);
}

/// Row padding is less than four bytes and brings each row to a multiple of four bytes.
pub proof fn lemma_padding_aligns(width: int, bytes: int)
    requires
        width >= 0,
        bytes >= 0,
    ensures
        0 <= padding_of(width, bytes) < 4,
        (width * bytes + padding_of(width, bytes)) % 4 == 0,
{
    assert(width * bytes >= 0) by (nonlinear_arith)
        requires
            width >= 0,
            bytes >= 0,
    ;
}

/// Bytes starting `0x42 0x4D` ("BM") never fail on the signature; a first pair that is no
/// known signature fails with `InvalidSignature` carrying that pair read big-endian.
pub proof fn lemma_signature_stage(s: Seq<u8>)
    requires
        s.len() >= 2,
    ensures
        s[0] == 0x42 && s[1] == 0x4d ==> !(decode_result(s) is Err && decode_result(
            s,
        )->Err_0 is InvalidSignature),
        signature_of(be16(s, 0)) is None ==> decode_result(s) == Err::<ImageModel, MediaError>(
            MediaError::InvalidSignature(be16(s, 0) as u16),
        ),
{
    if s[0] == 0x42 && s[1] == 0x4d {
        assert(signature_of(be16(s, 0)) == Some(Signature::BM));
    }
}

} // verus!
