use vstd::prelude::*;

verus! {

/// Why a decode failed. Every failure is fatal to the decode call.
#[derive(Debug, PartialEq, Eq)]
pub enum MediaError {
    /// The underlying byte source could not be opened or read; holds the platform's message.
    IoError(String),
    /// Fewer bytes were available than a field or the pixel payload requires.
    Truncated,
    /// The first two bytes, read big-endian, are not one of the known signatures.
    InvalidSignature(u16),
    /// A bit depth other than 8 or 24.
    UnsupportedDepth(u16),
    /// A compression method other than none (0).
    UnsupportedCompression(u32),
}

} // verus!
