use vstd::prelude::*;

use crate::error::MediaError;

verus! {

/// Byte order of a multi-byte integer field.
#[derive(Debug, Clone, Copy, PartialEq, Eq)]
pub enum Endianness {
    LittleEndian,
    BigEndian,
}

/// Value of the two bytes at `at`, least significant first.
pub open spec fn le16(s: Seq<u8>, at: int) -> int {
    s[at] + 256 * s[at + 1]
}

/// Value of the two bytes at `at`, most significant first.
pub open spec fn be16(s: Seq<u8>, at: int) -> int {
    256 * s[at] + s[at + 1]
}

/// Value of the four bytes at `at`, least significant first.
pub open spec fn le32(s: Seq<u8>, at: int) -> int {
    s[at] + 256 * s[at + 1] + 65536 * s[at + 2] + 16777216 * s[at + 3]
}

/// Value of the four bytes at `at`, most significant first.
pub open spec fn be32(s: Seq<u8>, at: int) -> int {
    16777216 * s[at] + 65536 * s[at + 1] + 256 * s[at + 2] + s[at + 3]
}

pub open spec fn u16_at(s: Seq<u8>, at: int, e: Endianness) -> int {
    match e {
        Endianness::LittleEndian => le16(s, at),
        Endianness::BigEndian => be16(s, at),
    }
}

pub open spec fn u32_at(s: Seq<u8>, at: int, e: Endianness) -> int {
    match e {
        Endianness::LittleEndian => le32(s, at),
        Endianness::BigEndian => be32(s, at),
    }
}

/// A seekable source of bytes held in memory, with a read cursor.
/// The cursor may stand past the end, as after a seek beyond it; reads then fail.
pub struct ByteSource {
    data: Vec<u8>,
    pos: usize,
}

impl View for ByteSource {
    /// The bytes of the source and the cursor's position.
    type V = (Seq<u8>, int);

    closed spec fn view(&self) -> (Seq<u8>, int) {
        (self.data@, self.pos as int)
    }
}

/// Whether `n` bytes can be read at the cursor of a source viewed as `v`.
pub open spec fn can_read(v: (Seq<u8>, int), n: int) -> bool {
    v.1 + n <= v.0.len()
}

impl ByteSource {
    /// A source over `data`, with the cursor at its start.
    pub fn new(data: Vec<u8>) -> (r: ByteSource)
        ensures
            r@ == (data@, 0int),
    {
        ByteSource { data, pos: 0 }
    }

    /// Number of bytes in the source.
    pub fn len(&self) -> (r: usize)
        ensures
            r == self@.0.len(),
    {
        self.data.len()
    }

    /// The cursor's position.
    pub fn position(&self) -> (r: usize)
        ensures
            r == self@.1,
    {
        self.pos
    }

    /// Moves the cursor to the absolute offset `pos`.
    pub fn seek(&mut self, pos: usize)
        ensures
            final(self)@ == (old(self)@.0, pos as int),
    {
        self.pos = pos;
    }

    /// Reads exactly `n` bytes at the cursor and advances it by `n`.
    /// Fails with `Truncated`, the cursor unmoved, when fewer than `n` remain.
    pub fn read_exact(&mut self, n: usize) -> (r: Result<Vec<u8>, MediaError>)
        ensures
            can_read(old(self)@, n as int) ==> r is Ok && final(self)@ == (
                old(self)@.0,
                old(self)@.1 + n,
            ) && r->Ok_0@ == old(self)@.0.subrange(old(self)@.1, old(self)@.1 + n),
            !can_read(old(self)@, n as int) ==> r == Err::<Vec<u8>, MediaError>(
                MediaError::Truncated,
            ) && final(self)@ == old(self)@,
    {
        if self.pos > self.data.len() || self.data.len() - self.pos < n {
            return Err(MediaError::Truncated);
        }
        let mut out: Vec<u8> = Vec::new();
        let mut i: usize = 0;
        while i < n
            invariant
                self.pos + n <= self.data.len(),
                i <= n,
                out@ == self.data@.subrange(self.pos as int, self.pos + i),
            decreases n - i,
        {
            out.push(self.data[self.pos + i]);
            i = i + 1;
        }
        self.pos = self.pos + n;
        Ok(out)
    }
}

/// Reads one byte at the cursor.
pub fn read_u8(source: &mut ByteSource) -> (r: Result<u8, MediaError>)
    ensures
        can_read(old(source)@, 1) ==> r == Ok::<u8, MediaError>(old(source)@.0[old(source)@.1])
            && final(source)@ == (old(source)@.0, old(source)@.1 + 1),
        !can_read(old(source)@, 1) ==> r == Err::<u8, MediaError>(MediaError::Truncated)
            && final(source)@ == old(source)@,
{
    match source.read_exact(1) {
        Ok(buf) => Ok(buf[0]),
        Err(e) => Err(e),
    }
}

/// Reads a 16-bit unsigned integer at the cursor in the byte order `endianness`.
pub fn read_u16(source: &mut ByteSource, endianness: Endianness) -> (r: Result<u16, MediaError>)
    ensures
        can_read(old(source)@, 2) ==> r == Ok::<u16, MediaError>(
            u16_at(old(source)@.0, old(source)@.1, endianness) as u16,
        ) && final(source)@ == (old(source)@.0, old(source)@.1 + 2),
        !can_read(old(source)@, 2) ==> r == Err::<u16, MediaError>(MediaError::Truncated)
            && final(source)@ == old(source)@,
{
    match source.read_exact(2) {
        Ok(buf) => {
            let v: u16 = match endianness {
                Endianness::LittleEndian => (buf[1] as u16) * 256 + buf[0] as u16,
                Endianness::BigEndian => (buf[0] as u16) * 256 + buf[1] as u16,
            };
            Ok(v)
        },
        Err(e) => Err(e),
    }
}

/// Reads a 32-bit unsigned integer at the cursor in the byte order `endianness`.
pub fn read_u32(source: &mut ByteSource, endianness: Endianness) -> (r: Result<u32, MediaError>)
    ensures
        can_read(old(source)@, 4) ==> r == Ok::<u32, MediaError>(
            u32_at(old(source)@.0, old(source)@.1, endianness) as u32,
        ) && final(source)@ == (old(source)@.0, old(source)@.1 + 4),
        !can_read(old(source)@, 4) ==> r == Err::<u32, MediaError>(MediaError::Truncated)
            && final(source)@ == old(source)@,
{
    match source.read_exact(4) {
        Ok(buf) => {
            let v: u32 = match endianness {
                Endianness::LittleEndian => (buf[3] as u32) * 16777216 + (buf[2] as u32) * 65536
                    + (buf[1] as u32) * 256 + buf[0] as u32,
                Endianness::BigEndian => (buf[0] as u32) * 16777216 + (buf[1] as u32) * 65536
                    + (buf[2] as u32) * 256 + buf[3] as u32,
            };
            Ok(v)
        },
        Err(e) => Err(e),
    }
}

} // verus!
