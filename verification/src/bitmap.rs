//! The decoded bitmap and the decoder itself.

use crate::error::Error;
use crate::header::{
    file_header_result,
    image_header_result,
    supported_bit_depth,
    BitmapFileHeader,
    BitmapImageHeader,
};
use crate::layout::{bytes_to_skip, pixel_data_start, row_bytes, row_stride, stride_of};
use crate::pixel::{decode_scanline, scanline_pixels, BGRA};
use crate::reader::ByteReader;
use vstd::prelude::*;

verus! {

/// A decoded bitmap: both headers and the pixels, row 0 being the top of the
/// picture.
#[derive(Debug)]
pub struct BitmapFile {
    pub file_header: BitmapFileHeader,
    pub image_header: BitmapImageHeader,
    pub pixel_array: Vec<Vec<BGRA>>,
}

/// The mathematical value of a decoded bitmap.
pub struct ImageModel {
    pub file_header: BitmapFileHeader,
    pub image_header: BitmapImageHeader,
    /// The rows from top to bottom, each from left to right.
    pub pixels: Seq<Seq<BGRA>>,
}

/// The rows of a grid as sequences.
pub open spec fn grid_view(rows: Seq<Vec<BGRA>>) -> Seq<Seq<BGRA>> {
    Seq::new(rows.len(), |r: int| rows[r]@)
}

impl View for BitmapFile {
    type V = ImageModel;

    open spec fn view(&self) -> ImageModel {
        ImageModel {
            file_header: self.file_header,
            image_header: self.image_header,
            pixels: grid_view(self.pixel_array@),
        }
    }
}

impl ImageModel {
    /// The grid has as many rows as the header declares, and each row as
    /// many pixels.
    pub open spec fn well_shaped(self) -> bool {
        &&& self.pixels.len() == self.image_header.height
        &&& forall|r: int|
            0 <= r < self.pixels.len() ==> (#[trigger] self.pixels[r]).len()
                == self.image_header.width
    }
}

/// The bytes of one pixel.
pub open spec fn group_size(bit_depth: u16) -> int {
    bit_depth as int / 8
}

/// The offset at which the `i`-th stored scanline starts, counting from the
/// first one in the file.
pub open spec fn scanline_start(
    file_header: BitmapFileHeader,
    image_header: BitmapImageHeader,
    i: int,
) -> int {
    pixel_data_start(image_header.header_size, image_header.bit_depth, file_header.bits_offset)
        + i * stride_of(image_header.width as int, image_header.bit_depth as int)
}

/// The offset just behind the last stored scanline.
pub open spec fn payload_end(file_header: BitmapFileHeader, image_header: BitmapImageHeader) -> int {
    scanline_start(file_header, image_header, image_header.height as int)
}

/// The pixels of the `i`-th stored scanline.
pub open spec fn stored_row(
    s: Seq<u8>,
    file_header: BitmapFileHeader,
    image_header: BitmapImageHeader,
    i: int,
) -> Seq<BGRA> {
    scanline_pixels(
        s,
        scanline_start(file_header, image_header, i),
        image_header.width as int,
        group_size(image_header.bit_depth),
    )
}

/// The grid that the payload of `s` spells. The file stores the bottom row
/// first, so row `r` of the grid is the stored scanline `height - 1 - r`.
pub open spec fn grid_of(
    s: Seq<u8>,
    file_header: BitmapFileHeader,
    image_header: BitmapImageHeader,
) -> Seq<Seq<BGRA>> {
    Seq::new(
        image_header.height as nat,
        |r: int| stored_row(s, file_header, image_header, image_header.height - 1 - r),
    )
}

/// What decoding the bytes `s` gives: the image, or the first failure met
/// on the way from the signature to the last scanline.
pub open spec fn decoded(s: Seq<u8>) -> Result<ImageModel, Error> {
    match file_header_result(s) {
        Err(e) => Err(e),
        Ok(file_header) => match image_header_result(s) {
            Err(e) => Err(e),
            Ok(image_header) => match image_header.validation() {
                Err(e) => Err(e),
                Ok(_) => if payload_end(file_header, image_header) > s.len() {
                    Err(Error::TruncatedInput)
                } else {
                    Ok(
                        ImageModel {
                            file_header,
                            image_header,
                            pixels: grid_of(s, file_header, image_header),
                        },
                    )
                },
            },
        },
    }
}

/// Reading a row out of a window of the file gives what reading it at the
/// window's offset in the file gives.
proof fn lemma_scanline_in_window(s: Seq<u8>, at: int, n: int, width: int, group: int)
    requires
        0 <= at,
        0 <= n,
        at + n <= s.len(),
        0 <= width,
        0 <= group,
        width * group <= n,
    ensures
        scanline_pixels(s.subrange(at, at + n), 0, width, group) == scanline_pixels(
            s,
            at,
            width,
            group,
        ),
{
    let window = s.subrange(at, at + n);
    let inside = scanline_pixels(window, 0, width, group);
    let outside = scanline_pixels(s, at, width, group);
    assert forall|c: int| 0 <= c < width implies #[trigger] inside[c] == outside[c] by {
        assert(0 <= c * group && (c + 1) * group <= width * group && (c + 1) * group == c * group
            + group) by (nonlinear_arith)
            requires
                0 <= c < width,
                0 <= group,
        ;
    }
    assert(inside =~= outside);
}

/// For the supported depths a row's bytes are its pixels times the bytes of
/// one pixel.
proof fn lemma_row_bytes(width: int, bit_depth: u16)
    requires
        supported_bit_depth(bit_depth),
    ensures
        row_bytes(width, bit_depth as int) == width * group_size(bit_depth),
{
    if bit_depth == 8 {
        assert(width * 8 / 8 == width * 1);
    } else if bit_depth == 16 {
        assert(width * 16 / 8 == width * 2);
    } else {
        assert(width * 24 / 8 == width * 3);
    }
}

/// Reads `height` scanlines from the cursor, in the order in which they are
/// stored, and turns each into a row of `width` pixels.
pub fn read_scanlines(reader: &mut ByteReader, width: i32, height: i32, bit_depth: u16) -> (r:
    Result<Vec<Vec<BGRA>>, Error>)
    requires
        old(reader).wf(),
        width >= 0,
        height >= 0,
        supported_bit_depth(bit_depth),
    ensures
        final(reader).wf(),
        final(reader).bytes() == old(reader).bytes(),
        old(reader).position() + height * stride_of(width as int, bit_depth as int) > old(
            reader,
        ).bytes().len() ==> r == Err::<Vec<Vec<BGRA>>, Error>(Error::TruncatedInput),
        old(reader).position() + height * stride_of(width as int, bit_depth as int) <= old(
            reader,
        ).bytes().len() ==> r is Ok && final(reader).position() == old(reader).position() + height
            * stride_of(width as int, bit_depth as int) && r->Ok_0@.len() == height && forall|i: int|
            0 <= i < height ==> (#[trigger] r->Ok_0@[i])@ == scanline_pixels(
                old(reader).bytes(),
                old(reader).position() + i * stride_of(width as int, bit_depth as int),
                width as int,
                group_size(bit_depth),
            ),
{
    let ghost bytes = reader.bytes();
    let ghost start = reader.position();
    let stride: u64 = row_stride(width, bit_depth);
    let group: usize = (bit_depth / 8) as usize;
    let mut rows: Vec<Vec<BGRA>> = Vec::new();
    let mut i: i32 = 0;
    proof {
        lemma_row_bytes(width as int, bit_depth);
    }
    while i < height
        invariant
            0 <= i <= height,
            width >= 0,
            reader.wf(),
            reader.bytes() == bytes,
            bytes == old(reader).bytes(),
            start == old(reader).position(),
            reader.position() == start + i * stride,
            stride == stride_of(width as int, bit_depth as int),
            group == group_size(bit_depth),
            width * group <= stride,
            rows@.len() == i,
            forall|j: int|
                0 <= j < i ==> (#[trigger] rows@[j])@ == scanline_pixels(
                    bytes,
                    start + j * stride,
                    width as int,
                    group as int,
                ),
        decreases height - i,
    {
        let ghost at = reader.position();
        proof {
            reader.lemma_position_in_bounds();
            assert((i + 1) * stride == i * stride + stride && (i + 1) * stride <= height * stride)
                by (nonlinear_arith)
                requires
                    0 <= i < height,
                    0 <= stride,
            ;
        }
        match reader.read_fixed_bytes(stride) {
            Err(e) => {
                return Err(e);
            },
            Ok(line) => {
                let row = decode_scanline(line, width as usize, group);
                proof {
                    lemma_scanline_in_window(
                        bytes,
                        at,
                        stride as int,
                        width as int,
                        group as int,
                    );
                }
                rows.push(row);
                i = i + 1;
            },
        }
    }
    proof {
        reader.lemma_position_in_bounds();
    }
    Ok(rows)
}

/// Turns a grid upside down: the last row becomes the first.
pub fn reorient(rows: Vec<Vec<BGRA>>) -> (out: Vec<Vec<BGRA>>)
    ensures
        out@.len() == rows@.len(),
        forall|r: int| 0 <= r < out@.len() ==> #[trigger] out@[r] == rows@[rows@.len() - 1 - r],
{
    let ghost stored = rows@;
    let mut rest = rows;
    let mut out: Vec<Vec<BGRA>> = Vec::new();
    while rest.len() > 0
        invariant
            rest@.len() + out@.len() == stored.len(),
            rest@ == stored.subrange(0, rest@.len() as int),
            forall|r: int| 0 <= r < out@.len() ==> #[trigger] out@[r] == stored[stored.len() - 1 - r],
        decreases rest@.len(),
    {
        match rest.pop() {
            Some(row) => {
                out.push(row);
            },
            None => {},
        }
    }
    out
}

impl BitmapFile {
    /// Decodes the bytes of a bitmap file.
    ///
    /// The headers are read field by field, the declared encoding is
    /// checked, the bytes up to the pixel data are skipped, and the stored
    /// scanlines are read and turned upside down. The result is the image
    /// that `decoded` describes, or the failure that it names.
    pub fn load(data: &[u8]) -> (r: Result<BitmapFile, Error>)
        ensures
            match r {
                Ok(file) => decoded(data@) == Ok::<ImageModel, Error>(file@) && file@.well_shaped(),
                Err(e) => decoded(data@) == Err::<ImageModel, Error>(e),
            },
    {
        let mut reader = ByteReader::new(data);
        let file_header = match BitmapFileHeader::read(&mut reader) {
            Ok(h) => h,
            Err(e) => { return Err(e); },
        };
        let image_header = match BitmapImageHeader::read(&mut reader) {
            Ok(h) => h,
            Err(e) => { return Err(e); },
        };
        match image_header.validate() {
            Ok(_) => {},
            Err(e) => { return Err(e); },
        }
        let gap: u64 = bytes_to_skip(&file_header, &image_header);
        match reader.skip(gap) {
            Ok(_) => {},
            Err(e) => {
                proof {
                    lemma_payload_extent(file_header, image_header);
                }
                return Err(e);
            },
        }
        let stored = match read_scanlines(
            &mut reader,
            image_header.width,
            image_header.height,
            image_header.bit_depth,
        ) {
            Ok(rows) => rows,
            Err(e) => { return Err(e); },
        };
        let pixel_array = reorient(stored);
        let file = BitmapFile { file_header, image_header, pixel_array };
        proof {
            assert(file@.pixels =~= grid_of(data@, file_header, image_header));
        }
        Ok(file)
    }
}

/// The payload does not end before it starts.
pub proof fn lemma_payload_extent(file_header: BitmapFileHeader, image_header: BitmapImageHeader)
    requires
        image_header.width >= 0,
        image_header.height >= 0,
    ensures
        scanline_start(file_header, image_header, 0) <= payload_end(file_header, image_header),
{
    let stride = stride_of(image_header.width as int, image_header.bit_depth as int);
    let height = image_header.height as int;
    assert(0 <= image_header.width * image_header.bit_depth) by (nonlinear_arith)
        requires
            image_header.width >= 0,
    ;
    assert(0 <= height * stride) by (nonlinear_arith)
        requires
            0 <= height,
            0 <= stride,
    ;
}

} // verus!
