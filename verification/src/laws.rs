//! What holds of every file that the decoder is given.

use crate::bitmap::{decoded, payload_end, stored_row, ImageModel};
use crate::endian::le_u16;
use crate::error::Error;
use crate::header::{
    file_header_of,
    image_header_of,
    supported_bit_depth,
    BMP_SIGNATURE,
};
use vstd::prelude::*;

verus! {

/// Whether `s` opens with the two bytes `B` and `M`.
pub open spec fn has_signature(s: Seq<u8>) -> bool {
    s.len() >= 2 && s[0] == 0x42 && s[1] == 0x4d
}

/// The two bytes `B`, `M` are exactly those that read as the signature.
pub proof fn lemma_signature_bytes(s: Seq<u8>)
    requires
        s.len() >= 2,
    ensures
        has_signature(s) <==> le_u16(s, 0) == BMP_SIGNATURE,
{
}

/// Every decoded grid has exactly as many rows as the header declares for
/// the height, and every row exactly as many pixels as it declares for the
/// width.
pub proof fn lemma_grid_shape(s: Seq<u8>)
    requires
        decoded(s) is Ok,
    ensures
        decoded(s)->Ok_0.well_shaped(),
        decoded(s)->Ok_0.image_header.width >= 0,
        decoded(s)->Ok_0.image_header.height >= 0,
{
}

/// The grid is the stored payload upside down: row `r` of the grid is the
/// stored scanline `height - 1 - r`. So the last scanline in the file is
/// row 0, the top of the picture, and the first scanline in the file is the
/// last row.
pub proof fn lemma_orientation(s: Seq<u8>, r: int)
    requires
        decoded(s) is Ok,
        0 <= r < decoded(s)->Ok_0.image_header.height,
    ensures
        decoded(s)->Ok_0.pixels[r] == stored_row(
            s,
            decoded(s)->Ok_0.file_header,
            decoded(s)->Ok_0.image_header,
            decoded(s)->Ok_0.image_header.height - 1 - r,
        ),
        decoded(s)->Ok_0.pixels[decoded(s)->Ok_0.image_header.height - 1 - r] == stored_row(
            s,
            decoded(s)->Ok_0.file_header,
            decoded(s)->Ok_0.image_header,
            r,
        ),
{
}

/// A file of at least two bytes that does not open with `BM` is refused for
/// its signature, whatever follows those two bytes and however little does.
pub proof fn lemma_invalid_signature(s: Seq<u8>)
    requires
        s.len() >= 2,
        !has_signature(s),
    ensures
        decoded(s) == Err::<ImageModel, Error>(Error::InvalidSignature),
{
}

/// A file with a good signature and complete headers whose compression
/// method is not the uncompressed one is refused for its compression,
/// whatever else the headers say.
pub proof fn lemma_unsupported_compression(s: Seq<u8>)
    requires
        has_signature(s),
        s.len() >= 54,
        image_header_of(s).compression_method != 0,
    ensures
        decoded(s) == Err::<ImageModel, Error>(Error::UnsupportedCompression),
{
}

/// A file with a good signature, complete headers and uncompressed data
/// whose bit depth is not 8, 16 or 24 is refused for its bit depth.
pub proof fn lemma_unsupported_bit_depth(s: Seq<u8>)
    requires
        has_signature(s),
        s.len() >= 54,
        image_header_of(s).compression_method == 0,
        !supported_bit_depth(image_header_of(s).bit_depth),
    ensures
        decoded(s) == Err::<ImageModel, Error>(Error::UnsupportedBitDepth),
{
}

/// A file whose headers are otherwise acceptable and which declares a pixel
/// payload of no bytes is refused for its pixel data, before any scanline is
/// looked at.
pub proof fn lemma_empty_payload(s: Seq<u8>)
    requires
        has_signature(s),
        s.len() >= 54,
        image_header_of(s).compression_method == 0,
        supported_bit_depth(image_header_of(s).bit_depth),
        image_header_of(s).width >= 0,
        image_header_of(s).height >= 0,
        image_header_of(s).image_size == 0,
    ensures
        decoded(s) == Err::<ImageModel, Error>(Error::InvalidPixelData),
{
}

/// Cutting a file that decodes short of the end of its last scanline gives
/// a file that is refused as truncated: no grid is ever filled in part.
pub proof fn lemma_truncation(s: Seq<u8>, n: int)
    requires
        decoded(s) is Ok,
        0 <= n <= s.len(),
        n < payload_end(decoded(s)->Ok_0.file_header, decoded(s)->Ok_0.image_header),
    ensures
        decoded(s.subrange(0, n)) == Err::<ImageModel, Error>(Error::TruncatedInput),
{
    let t = s.subrange(0, n);
    if n >= 2 {
        assert(le_u16(t, 0) == le_u16(s, 0));
    }
    if n >= 14 {
        assert(file_header_of(t) == file_header_of(s));
    }
    if n >= 54 {
        assert(image_header_of(t) == image_header_of(s));
    }
}

/// Where the headers of a file that decodes declare an offset and a size of
/// the payload that end no later than its last scanline does, cutting the
/// file to fewer bytes than that offset and size together gives a file that
/// is refused as truncated.
pub proof fn lemma_truncation_below_declared_payload(s: Seq<u8>, n: int)
    requires
        decoded(s) is Ok,
        0 <= n <= s.len(),
        decoded(s)->Ok_0.file_header.bits_offset + decoded(s)->Ok_0.image_header.image_size
            <= payload_end(decoded(s)->Ok_0.file_header, decoded(s)->Ok_0.image_header),
        n < decoded(s)->Ok_0.file_header.bits_offset + decoded(s)->Ok_0.image_header.image_size,
    ensures
        decoded(s.subrange(0, n)) == Err::<ImageModel, Error>(Error::TruncatedInput),
{
    lemma_truncation(s, n);
}

} // verus!
