//! Decoder for uncompressed Windows bitmap images.
//!
//! The decoder works on the bytes of a file and yields the two headers and a
//! grid of pixels whose first row is the top of the picture. Every function is
//! stated over a mathematical model of the file layout and proved against it.

pub mod bitmap;
pub mod endian;
pub mod error;
pub mod header;
pub mod laws;
pub mod layout;
pub mod pixel;
pub mod reader;

pub use crate::bitmap::BitmapFile;
pub use crate::error::Error;
pub use crate::header::{BitmapFileHeader, BitmapImageHeader, CompressionMethod};
pub use crate::pixel::BGRA;
