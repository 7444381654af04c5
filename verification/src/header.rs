//! The two headers at the front of a bitmap file, and the rules that decide
//! whether the encoding they declare can be decoded.

use crate::endian::{le_i32, le_u16, le_u32};
use crate::error::Error;
use crate::reader::ByteReader;
use vstd::prelude::*;

verus! {

/// The magic `BM`, read as a little-endian 16-bit integer.
pub const BMP_SIGNATURE: u16 = 0x4d42;

/// The header that opens the file.
#[derive(Debug, Clone, Copy, PartialEq, Eq, Structural)]
pub struct BitmapFileHeader {
    /// The magic number; always `BMP_SIGNATURE` in a decoded file.
    pub signature: u16,
    /// The size of the file as the writer declared it; never checked.
    pub size: u32,
    /// Reserved by the format; ignored.
    pub reserved: u32,
    /// The offset of the first pixel byte from the start of the file.
    pub bits_offset: u32,
}

/// The header that describes the picture.
#[derive(Debug, Clone, Copy, PartialEq, Eq, Structural)]
pub struct BitmapImageHeader {
    /// How many bytes this header occupies in the file.
    pub header_size: u32,
    /// Pixels in a row.
    pub width: i32,
    /// Rows in the picture.
    pub height: i32,
    /// Colour planes; 1 in practice, not checked.
    pub color_planes: u16,
    /// Bits in a pixel.
    pub bit_depth: u16,
    /// The code of the compression method.
    pub compression_method: u32,
    /// The declared length of the pixel payload in bytes.
    pub image_size: u32,
    /// Horizontal resolution; unused.
    pub pix_per_meter_x: i32,
    /// Vertical resolution; unused.
    pub pix_per_meter_y: i32,
    /// Colours in the palette.
    pub color_count: u32,
    /// Colours that matter; unused.
    pub imp_color_count: u32,
}

/// The compression methods the format knows.
#[derive(Debug, Clone, Copy, PartialEq, Eq, Structural)]
pub enum CompressionMethod {
    BiRgb,
    BiRle8,
    BiRle4,
    BiBitfields,
    BiJpeg,
    BiPng,
    BiAlphabitfields,
    BiCmyk,
    BiCmykrle8,
    BiCmykrle4,
}

impl CompressionMethod {
    /// The code under which the method stands in the image header.
    pub open spec fn spec_code(self) -> u32 {
        match self {
            CompressionMethod::BiRgb => 0,
            CompressionMethod::BiRle8 => 1,
            CompressionMethod::BiRle4 => 2,
            CompressionMethod::BiBitfields => 3,
            CompressionMethod::BiJpeg => 4,
            CompressionMethod::BiPng => 5,
            CompressionMethod::BiAlphabitfields => 6,
            CompressionMethod::BiCmyk => 11,
            CompressionMethod::BiCmykrle8 => 12,
            CompressionMethod::BiCmykrle4 => 13,
        }
    }

    /// The code under which the method stands in the image header.
    #[verifier::when_used_as_spec(spec_code)]
    pub fn code(self) -> (c: u32)
        ensures
            c == self.spec_code(),
    {
        match self {
            CompressionMethod::BiRgb => 0,
            CompressionMethod::BiRle8 => 1,
            CompressionMethod::BiRle4 => 2,
            CompressionMethod::BiBitfields => 3,
            CompressionMethod::BiJpeg => 4,
            CompressionMethod::BiPng => 5,
            CompressionMethod::BiAlphabitfields => 6,
            CompressionMethod::BiCmyk => 11,
            CompressionMethod::BiCmykrle8 => 12,
            CompressionMethod::BiCmykrle4 => 13,
        }
    }

    /// The method that a code names. A code that names none gives `None`:
    /// no method is ever assumed.
    pub open spec fn spec_from_code(code: u32) -> Option<CompressionMethod> {
        if code == 0 {
            Some(CompressionMethod::BiRgb)
        } else if code == 1 {
            Some(CompressionMethod::BiRle8)
        } else if code == 2 {
            Some(CompressionMethod::BiRle4)
        } else if code == 3 {
            Some(CompressionMethod::BiBitfields)
        } else if code == 4 {
            Some(CompressionMethod::BiJpeg)
        } else if code == 5 {
            Some(CompressionMethod::BiPng)
        } else if code == 6 {
            Some(CompressionMethod::BiAlphabitfields)
        } else if code == 11 {
            Some(CompressionMethod::BiCmyk)
        } else if code == 12 {
            Some(CompressionMethod::BiCmykrle8)
        } else if code == 13 {
            Some(CompressionMethod::BiCmykrle4)
        } else {
            None
        }
    }

    /// A method is the one that its own code names, and a code names no
    /// method but the one that stands under it.
    pub proof fn lemma_code_round_trip(self, code: u32)
        ensures
            CompressionMethod::spec_from_code(self.spec_code()) == Some(self),
            CompressionMethod::spec_from_code(code) == Some(self) <==> self.spec_code() == code,
    {
    }

    /// The method that a code names, or `None` for a code that names none.
    #[verifier::when_used_as_spec(spec_from_code)]
    pub fn from_code(code: u32) -> (r: Option<CompressionMethod>)
        ensures
            r == CompressionMethod::spec_from_code(code),
    {
        if code == 0 {
            Some(CompressionMethod::BiRgb)
        } else if code == 1 {
            Some(CompressionMethod::BiRle8)
        } else if code == 2 {
            Some(CompressionMethod::BiRle4)
        } else if code == 3 {
            Some(CompressionMethod::BiBitfields)
        } else if code == 4 {
            Some(CompressionMethod::BiJpeg)
        } else if code == 5 {
            Some(CompressionMethod::BiPng)
        } else if code == 6 {
            Some(CompressionMethod::BiAlphabitfields)
        } else if code == 11 {
            Some(CompressionMethod::BiCmyk)
        } else if code == 12 {
            Some(CompressionMethod::BiCmykrle8)
        } else if code == 13 {
            Some(CompressionMethod::BiCmykrle4)
        } else {
            None
        }
    }

    /// Whether pixel data stored under this method can be decoded. Only
    /// uncompressed data can.
    pub open spec fn spec_is_supported(self) -> bool {
        self == CompressionMethod::BiRgb
    }

    /// Whether pixel data stored under this method can be decoded.
    #[verifier::when_used_as_spec(spec_is_supported)]
    pub fn is_supported(self) -> (b: bool)
        ensures
            b == self.spec_is_supported(),
    {
        match self {
            CompressionMethod::BiRgb => true,
            _ => false,
        }
    }
}

/// Whether a compression code names a method that can be decoded.
pub open spec fn supported_compression(code: u32) -> bool {
    match CompressionMethod::spec_from_code(code) {
        Some(method) => method.spec_is_supported(),
        None => false,
    }
}

/// The one supported compression code is that of uncompressed data.
pub proof fn lemma_supported_compression(code: u32)
    ensures
        supported_compression(code) <==> code == 0,
{
}

/// Whether pixels of this many bits can be decoded.
pub open spec fn supported_bit_depth(bit_depth: u16) -> bool {
    bit_depth == 8 || bit_depth == 16 || bit_depth == 24
}

/// The file header that the first 14 bytes of `s` spell.
pub open spec fn file_header_of(s: Seq<u8>) -> BitmapFileHeader
    recommends
        s.len() >= 14,
{
    BitmapFileHeader {
        signature: le_u16(s, 0) as u16,
        size: le_u32(s, 2) as u32,
        reserved: le_u32(s, 6) as u32,
        bits_offset: le_u32(s, 10) as u32,
    }
}

/// The image header that bytes 14 to 54 of `s` spell.
pub open spec fn image_header_of(s: Seq<u8>) -> BitmapImageHeader
    recommends
        s.len() >= 54,
{
    BitmapImageHeader {
        header_size: le_u32(s, 14) as u32,
        width: le_i32(s, 18) as i32,
        height: le_i32(s, 22) as i32,
        color_planes: le_u16(s, 26) as u16,
        bit_depth: le_u16(s, 28) as u16,
        compression_method: le_u32(s, 30) as u32,
        image_size: le_u32(s, 34) as u32,
        pix_per_meter_x: le_i32(s, 38) as i32,
        pix_per_meter_y: le_i32(s, 42) as i32,
        color_count: le_u32(s, 46) as u32,
        imp_color_count: le_u32(s, 50) as u32,
    }
}

/// What reading the file header from the start of `s` gives. The signature is
/// judged as soon as its two bytes are read, before anything else is looked
/// at.
pub open spec fn file_header_result(s: Seq<u8>) -> Result<BitmapFileHeader, Error> {
    if s.len() < 2 {
        Err(Error::TruncatedInput)
    } else if le_u16(s, 0) != BMP_SIGNATURE {
        Err(Error::InvalidSignature)
    } else if s.len() < 14 {
        Err(Error::TruncatedInput)
    } else {
        Ok(file_header_of(s))
    }
}

/// What reading the image header from offset 14 of `s` gives.
pub open spec fn image_header_result(s: Seq<u8>) -> Result<BitmapImageHeader, Error> {
    if s.len() < 54 {
        Err(Error::TruncatedInput)
    } else {
        Ok(image_header_of(s))
    }
}

impl BitmapFileHeader {
    /// Reads the file header from a cursor at the start of a file. The two
    /// signature bytes are checked before the next field is read: where they
    /// are wrong, the cursor has consumed them and nothing else.
    pub fn read(reader: &mut ByteReader) -> (r: Result<BitmapFileHeader, Error>)
        requires
            old(reader).wf(),
            old(reader).position() == 0,
        ensures
            final(reader).wf(),
            final(reader).bytes() == old(reader).bytes(),
            r == file_header_result(old(reader).bytes()),
            r is Ok ==> final(reader).position() == 14,
            r == Err::<BitmapFileHeader, Error>(Error::InvalidSignature)
                ==> final(reader).position() == 2,
    {
        let signature: u16 = match reader.read_u16_le() {
            Ok(v) => v,
            Err(e) => { return Err(e); },
        };
        if signature != BMP_SIGNATURE {
            return Err(Error::InvalidSignature);
        }
        let size: u32 = match reader.read_u32_le() {
            Ok(v) => v,
            Err(e) => { return Err(e); },
        };
        let reserved: u32 = match reader.read_u32_le() {
            Ok(v) => v,
            Err(e) => { return Err(e); },
        };
        let bits_offset: u32 = match reader.read_u32_le() {
            Ok(v) => v,
            Err(e) => { return Err(e); },
        };
        Ok(BitmapFileHeader { signature, size, reserved, bits_offset })
    }
}

impl BitmapImageHeader {
    /// Reads the forty bytes of fields of the image header from a cursor that
    /// has just passed the file header.
    pub fn read(reader: &mut ByteReader) -> (r: Result<BitmapImageHeader, Error>)
        requires
            old(reader).wf(),
            old(reader).position() == 14,
        ensures
            final(reader).wf(),
            final(reader).bytes() == old(reader).bytes(),
            r == image_header_result(old(reader).bytes()),
            r is Ok ==> final(reader).position() == 54,
    {
        let header_size: u32 = match reader.read_u32_le() {
            Ok(v) => v,
            Err(e) => { return Err(e); },
        };
        let width: i32 = match reader.read_i32_le() {
            Ok(v) => v,
            Err(e) => { return Err(e); },
        };
        let height: i32 = match reader.read_i32_le() {
            Ok(v) => v,
            Err(e) => { return Err(e); },
        };
        let color_planes: u16 = match reader.read_u16_le() {
            Ok(v) => v,
            Err(e) => { return Err(e); },
        };
        let bit_depth: u16 = match reader.read_u16_le() {
            Ok(v) => v,
            Err(e) => { return Err(e); },
        };
        let compression_method: u32 = match reader.read_u32_le() {
            Ok(v) => v,
            Err(e) => { return Err(e); },
        };
        let image_size: u32 = match reader.read_u32_le() {
            Ok(v) => v,
            Err(e) => { return Err(e); },
        };
        let pix_per_meter_x: i32 = match reader.read_i32_le() {
            Ok(v) => v,
            Err(e) => { return Err(e); },
        };
        let pix_per_meter_y: i32 = match reader.read_i32_le() {
            Ok(v) => v,
            Err(e) => { return Err(e); },
        };
        let color_count: u32 = match reader.read_u32_le() {
            Ok(v) => v,
            Err(e) => { return Err(e); },
        };
        let imp_color_count: u32 = match reader.read_u32_le() {
            Ok(v) => v,
            Err(e) => { return Err(e); },
        };
        Ok(
            BitmapImageHeader {
                header_size,
                width,
                height,
                color_planes,
                bit_depth,
                compression_method,
                image_size,
                pix_per_meter_x,
                pix_per_meter_y,
                color_count,
                imp_color_count,
            },
        )
    }

    /// What the checks on the declared encoding say of this header: the
    /// first rule that it breaks, in the order compression, bit depth,
    /// dimensions, payload size.
    pub open spec fn validation(&self) -> Result<(), Error> {
        if !supported_compression(self.compression_method) {
            Err(Error::UnsupportedCompression)
        } else if !supported_bit_depth(self.bit_depth) {
            Err(Error::UnsupportedBitDepth)
        } else if self.width < 0 || self.height < 0 {
            Err(Error::NegativeDimension)
        } else if self.image_size == 0 {
            Err(Error::InvalidPixelData)
        } else {
            Ok(())
        }
    }

    /// Checks that the declared encoding can be decoded, and reports the
    /// first rule that it breaks.
    pub fn validate(&self) -> (r: Result<(), Error>)
        ensures
            r == self.validation(),
    {
        let accepted: bool = match CompressionMethod::from_code(self.compression_method) {
            Some(method) => method.is_supported(),
            None => false,
        };
        if !accepted {
            return Err(Error::UnsupportedCompression);
        }
        if !(self.bit_depth == 8 || self.bit_depth == 16 || self.bit_depth == 24) {
            return Err(Error::UnsupportedBitDepth);
        }
        if self.width < 0 || self.height < 0 {
            return Err(Error::NegativeDimension);
        }
        if self.image_size == 0 {
            return Err(Error::InvalidPixelData);
        }
        Ok(())
    }
}

} // verus!
