//! Decoding of uncompressed BMP raster images into row-major pixel buffers.
pub mod bmp;
pub mod error;
pub mod image;
pub mod utils;
