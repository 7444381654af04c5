//! Where the pixel data starts and how wide a stored scanline is: pure
//! arithmetic over header fields.

use crate::header::{BitmapFileHeader, BitmapImageHeader};
use vstd::prelude::*;

verus! {

/// The number of palette entries that pixels of `bit_depth` bits index.
/// Direct-colour depths have no palette.
pub open spec fn color_table_entries(bit_depth: u16) -> int {
    if bit_depth == 1 {
        2
    } else if bit_depth == 4 {
        16
    } else if bit_depth == 8 {
        256
    } else {
        0
    }
}

/// The bytes of the declared image header that follow its forty bytes of
/// fields.
pub open spec fn header_tail(header_size: u32) -> int {
    if header_size > 40 {
        header_size - 40
    } else {
        0
    }
}

/// The offset at which file header, declared image header and colour table
/// end, each palette entry taking four bytes.
pub open spec fn table_region_end(header_size: u32, bit_depth: u16) -> int {
    14 + header_size + 4 * color_table_entries(bit_depth)
}

/// The bytes between the end of the colour table and the declared offset of
/// the pixel data; none where the offset does not lie beyond the table.
pub open spec fn gap_length(header_size: u32, bit_depth: u16, bits_offset: u32) -> int {
    if bits_offset > table_region_end(header_size, bit_depth) {
        bits_offset - table_region_end(header_size, bit_depth)
    } else {
        0
    }
}

/// The bytes to discard between the last field of the image header and the
/// first pixel byte: the tail of the header, the colour table and the gap.
pub open spec fn skip_length(header_size: u32, bit_depth: u16, bits_offset: u32) -> int {
    header_tail(header_size) + 4 * color_table_entries(bit_depth) + gap_length(
        header_size,
        bit_depth,
        bits_offset,
    )
}

/// The offset of the first pixel byte.
pub open spec fn pixel_data_start(header_size: u32, bit_depth: u16, bits_offset: u32) -> int {
    54 + skip_length(header_size, bit_depth, bits_offset)
}

/// The bytes that the pixels of one row occupy, padding not counted.
pub open spec fn row_bytes(width: int, bit_depth: int) -> int {
    width * bit_depth / 8
}

/// The bytes that one stored scanline occupies: the row's bytes rounded up
/// to the next multiple of four.
pub open spec fn stride_of(width: int, bit_depth: int) -> int {
    (row_bytes(width, bit_depth) + 3) / 4 * 4
}

/// With a declared header of at least forty bytes, pixel reading begins at
/// the declared offset, or at the end of the colour table where the declared
/// offset lies before it.
pub proof fn lemma_pixel_data_start(header_size: u32, bit_depth: u16, bits_offset: u32)
    requires
        header_size >= 40,
    ensures
        pixel_data_start(header_size, bit_depth, bits_offset) == if bits_offset
            > table_region_end(header_size, bit_depth) {
            bits_offset as int
        } else {
            table_region_end(header_size, bit_depth)
        },
{
}

/// A stride is a multiple of four, holds the whole row and pads it by fewer
/// than four bytes.
pub proof fn lemma_stride_bounds(width: int, bit_depth: int)
    ensures
        stride_of(width, bit_depth) % 4 == 0,
        row_bytes(width, bit_depth) <= stride_of(width, bit_depth) < row_bytes(width, bit_depth)
            + 4,
{
}

/// A row already aligned to four bytes gets no padding.
pub proof fn lemma_stride_of_aligned_row(width: int, bit_depth: int)
    requires
        row_bytes(width, bit_depth) % 4 == 0,
    ensures
        stride_of(width, bit_depth) == row_bytes(width, bit_depth),
{
}

/// The number of palette entries that pixels of `bit_depth` bits index.
pub fn color_table_entry_count(bit_depth: u16) -> (n: u32)
    ensures
        n == color_table_entries(bit_depth),
{
    if bit_depth == 1 {
        2
    } else if bit_depth == 4 {
        16
    } else if bit_depth == 8 {
        256
    } else {
        0
    }
}

/// The number of bytes to discard after the fields of the image header so
/// that the next byte is the first pixel byte.
pub fn bytes_to_skip(file_header: &BitmapFileHeader, image_header: &BitmapImageHeader) -> (n: u64)
    ensures
        n == skip_length(
            image_header.header_size,
            image_header.bit_depth,
            file_header.bits_offset,
        ),
{
    let header_size: u64 = image_header.header_size as u64;
    let tail: u64 = if header_size > 40 {
        header_size - 40
    } else {
        0
    };
    let table: u64 = 4 * (color_table_entry_count(image_header.bit_depth) as u64);
    let region_end: u64 = 14 + header_size + table;
    let offset: u64 = file_header.bits_offset as u64;
    let gap: u64 = if offset > region_end {
        offset - region_end
    } else {
        0
    };
    tail + table + gap
}

/// The stride of a scanline of `width` pixels of `bit_depth` bits.
pub fn row_stride(width: i32, bit_depth: u16) -> (stride: u64)
    requires
        width >= 0,
    ensures
        stride == stride_of(width as int, bit_depth as int),
        stride % 4 == 0,
        row_bytes(width as int, bit_depth as int) <= stride < row_bytes(
            width as int,
            bit_depth as int,
        ) + 4,
        stride <= 0x8000_0000_0000,
{
    let w: u64 = width as u64;
    let d: u64 = bit_depth as u64;
    assert(w * d <= 0x7fff_ffff * 0xffff) by (nonlinear_arith)
        requires
            w <= 0x7fff_ffff,
            d <= 0xffff,
    ;
    let raw: u64 = w * d / 8;
    let padded: u64 = raw + 3;
    assert(padded & !3u64 == padded / 4 * 4) by (bit_vector);
    padded & !3
}

} // verus!
