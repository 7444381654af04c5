use bitmap::bitmap::{read_scanlines, reorient};
use bitmap::header::BMP_SIGNATURE;
use bitmap::layout::{bytes_to_skip, color_table_entry_count, row_stride};
use bitmap::pixel::decode_scanline;
use bitmap::reader::ByteReader;
use bitmap::{BitmapFile, BitmapFileHeader, BitmapImageHeader, CompressionMethod, Error, BGRA};

/// The 54 bytes of both headers.
fn headers(
    bits_offset: u32,
    header_size: u32,
    width: i32,
    height: i32,
    bit_depth: u16,
    compression: u32,
    image_size: u32,
) -> Vec<u8> {
    let mut out: Vec<u8> = Vec::new();
    out.extend_from_slice(b"BM");
    out.extend_from_slice(&0x01020304u32.to_le_bytes());
    out.extend_from_slice(&0u32.to_le_bytes());
    out.extend_from_slice(&bits_offset.to_le_bytes());
    out.extend_from_slice(&header_size.to_le_bytes());
    out.extend_from_slice(&width.to_le_bytes());
    out.extend_from_slice(&height.to_le_bytes());
    out.extend_from_slice(&1u16.to_le_bytes());
    out.extend_from_slice(&bit_depth.to_le_bytes());
    out.extend_from_slice(&compression.to_le_bytes());
    out.extend_from_slice(&image_size.to_le_bytes());
    out.extend_from_slice(&2835i32.to_le_bytes());
    out.extend_from_slice(&(-2835i32).to_le_bytes());
    out.extend_from_slice(&7u32.to_le_bytes());
    out.extend_from_slice(&5u32.to_le_bytes());
    out
}

/// A 2 x 2 picture of 24 bits: the bottom row is stored first.
fn two_by_two() -> Vec<u8> {
    let mut file = headers(54, 40, 2, 2, 24, 0, 16);
    // bottom row: (b, g, r) = (1, 2, 3), (4, 5, 6), then two bytes of padding
    file.extend_from_slice(&[1, 2, 3, 4, 5, 6, 0xaa, 0xbb]);
    // top row
    file.extend_from_slice(&[7, 8, 9, 10, 11, 12, 0xcc, 0xdd]);
    file
}

fn px(blue: u8, green: u8, red: u8) -> BGRA {
    BGRA { blue, green, red }
}

#[test]
fn round_trip_two_by_two() {
    let file = two_by_two();
    let bmp = BitmapFile::load(&file).unwrap();
    assert_eq!(bmp.pixel_array.len(), 2);
    assert_eq!(bmp.pixel_array[0], vec![px(7, 8, 9), px(10, 11, 12)]);
    assert_eq!(bmp.pixel_array[1], vec![px(1, 2, 3), px(4, 5, 6)]);
}

#[test]
fn headers_are_read_little_endian() {
    let bmp = BitmapFile::load(&two_by_two()).unwrap();
    assert_eq!(
        bmp.file_header,
        BitmapFileHeader { signature: 0x4d42, size: 0x01020304, reserved: 0, bits_offset: 54 }
    );
    assert_eq!(
        bmp.image_header,
        BitmapImageHeader {
            header_size: 40,
            width: 2,
            height: 2,
            color_planes: 1,
            bit_depth: 24,
            compression_method: 0,
            image_size: 16,
            pix_per_meter_x: 2835,
            pix_per_meter_y: -2835,
            color_count: 7,
            imp_color_count: 5,
        }
    );
}

#[test]
fn signature_spells_bm() {
    assert_eq!(BMP_SIGNATURE, 0x4d42);
    assert_eq!(BMP_SIGNATURE.to_le_bytes(), *b"BM");
}

#[test]
fn grid_has_declared_shape() {
    // 3 x 2: a row takes 9 bytes, a scanline 12
    let mut file = headers(54, 40, 3, 2, 24, 0, 24);
    file.extend_from_slice(&[0u8; 24]);
    let bmp = BitmapFile::load(&file).unwrap();
    assert_eq!(bmp.pixel_array.len(), 2);
    for row in bmp.pixel_array.iter() {
        assert_eq!(row.len(), 3);
    }
}

#[test]
fn padding_never_becomes_a_pixel() {
    // 3 pixels of 3 bytes leave 3 bytes of padding: enough for a pixel, but none
    let mut file = headers(54, 40, 3, 1, 24, 0, 12);
    file.extend_from_slice(&[1, 2, 3, 4, 5, 6, 7, 8, 9, 90, 91, 92]);
    let bmp = BitmapFile::load(&file).unwrap();
    assert_eq!(bmp.pixel_array, vec![vec![px(1, 2, 3), px(4, 5, 6), px(7, 8, 9)]]);
}

#[test]
fn stride_is_padded_to_four_bytes() {
    assert_eq!(row_stride(10, 24), 32);
    assert_eq!(row_stride(4, 24), 12);
    assert_eq!(row_stride(0, 24), 0);
    assert_eq!(row_stride(1, 8), 4);
    assert_eq!(row_stride(5, 8), 8);
    assert_eq!(row_stride(3, 16), 8);
    assert_eq!(row_stride(1, 1), 0);
    assert_eq!(row_stride(9, 1), 4);
    assert_eq!(row_stride(i32::MAX, 24), 6442450944);
}

#[test]
fn last_stored_scanline_is_the_top_row() {
    let mut file = headers(54, 40, 1, 3, 24, 0, 12);
    file.extend_from_slice(&[1, 1, 1, 0]);
    file.extend_from_slice(&[2, 2, 2, 0]);
    file.extend_from_slice(&[3, 3, 3, 0]);
    let bmp = BitmapFile::load(&file).unwrap();
    assert_eq!(bmp.pixel_array[0], vec![px(3, 3, 3)]);
    assert_eq!(bmp.pixel_array[1], vec![px(2, 2, 2)]);
    assert_eq!(bmp.pixel_array[2], vec![px(1, 1, 1)]);
}

#[test]
fn wrong_signature_is_refused() {
    let mut file = two_by_two();
    file[0] = b'B';
    file[1] = b'N';
    assert!(matches!(BitmapFile::load(&file), Err(Error::InvalidSignature)));
    file[0] = b'M';
    file[1] = b'B';
    assert!(matches!(BitmapFile::load(&file), Err(Error::InvalidSignature)));
}

#[test]
fn wrong_signature_is_refused_before_anything_else_is_read() {
    assert!(matches!(BitmapFile::load(b"PK"), Err(Error::InvalidSignature)));
    assert!(matches!(BitmapFile::load(b"PK\x03"), Err(Error::InvalidSignature)));
    // faults further on do not change the outcome
    let mut file = headers(54, 40, -1, -1, 1, 9, 0);
    file[1] = 0;
    assert!(matches!(BitmapFile::load(&file), Err(Error::InvalidSignature)));
}

#[test]
fn rle8_is_refused() {
    let mut file = headers(54, 40, 2, 2, 24, 1, 16);
    file.extend_from_slice(&[0u8; 16]);
    assert!(matches!(BitmapFile::load(&file), Err(Error::UnsupportedCompression)));
}

#[test]
fn every_other_compression_is_refused() {
    for code in [2u32, 3, 4, 5, 6, 7, 11, 12, 13, 14, u32::MAX] {
        let mut file = headers(54, 40, 2, 2, 24, code, 16);
        file.extend_from_slice(&[0u8; 16]);
        assert!(matches!(BitmapFile::load(&file), Err(Error::UnsupportedCompression)));
    }
}

#[test]
fn compression_is_judged_before_bit_depth() {
    let file = headers(54, 40, 2, 2, 1, 1, 0);
    assert!(matches!(BitmapFile::load(&file), Err(Error::UnsupportedCompression)));
}

#[test]
fn bit_depth_one_is_refused() {
    let mut file = headers(62, 40, 2, 2, 1, 0, 8);
    file.extend_from_slice(&[0u8; 16]);
    assert!(matches!(BitmapFile::load(&file), Err(Error::UnsupportedBitDepth)));
}

#[test]
fn other_bit_depths_are_refused() {
    for depth in [0u16, 4, 7, 9, 15, 32, 64] {
        let mut file = headers(54, 40, 2, 2, depth, 0, 16);
        file.extend_from_slice(&[0u8; 64]);
        assert!(matches!(BitmapFile::load(&file), Err(Error::UnsupportedBitDepth)));
    }
}

#[test]
fn negative_dimensions_are_refused() {
    let mut file = headers(54, 40, 2, -2, 24, 0, 16);
    file.extend_from_slice(&[0u8; 16]);
    assert!(matches!(BitmapFile::load(&file), Err(Error::NegativeDimension)));
    let mut file = headers(54, 40, -2, 2, 24, 0, 16);
    file.extend_from_slice(&[0u8; 16]);
    assert!(matches!(BitmapFile::load(&file), Err(Error::NegativeDimension)));
    // judged after the bit depth, before the payload size
    let file = headers(54, 40, -2, 2, 1, 0, 0);
    assert!(matches!(BitmapFile::load(&file), Err(Error::UnsupportedBitDepth)));
    let file = headers(54, 40, -2, 2, 24, 0, 0);
    assert!(matches!(BitmapFile::load(&file), Err(Error::NegativeDimension)));
}

#[test]
fn empty_payload_is_refused() {
    let mut file = headers(54, 40, 2, 2, 24, 0, 0);
    file.extend_from_slice(&[0u8; 16]);
    assert!(matches!(BitmapFile::load(&file), Err(Error::InvalidPixelData)));
    // also where the scanlines are missing
    let file = headers(54, 40, 2, 2, 24, 0, 0);
    assert!(matches!(BitmapFile::load(&file), Err(Error::InvalidPixelData)));
}

#[test]
fn truncated_payload_is_refused() {
    let file = two_by_two();
    assert_eq!(file.len(), 70);
    for n in 54..70 {
        assert!(matches!(BitmapFile::load(&file[..n]), Err(Error::TruncatedInput)));
    }
    assert!(BitmapFile::load(&file[..70]).is_ok());
}

#[test]
fn truncated_headers_are_refused() {
    let file = two_by_two();
    assert!(matches!(BitmapFile::load(&file[..0]), Err(Error::TruncatedInput)));
    assert!(matches!(BitmapFile::load(&file[..1]), Err(Error::TruncatedInput)));
    for n in 2..54 {
        assert!(matches!(BitmapFile::load(&file[..n]), Err(Error::TruncatedInput)));
    }
}

#[test]
fn bytes_behind_the_payload_are_ignored() {
    let mut file = two_by_two();
    file.extend_from_slice(&[9, 9, 9, 9, 9]);
    let bmp = BitmapFile::load(&file).unwrap();
    assert_eq!(bmp.pixel_array[0], vec![px(7, 8, 9), px(10, 11, 12)]);
    assert_eq!(bmp.pixel_array[1], vec![px(1, 2, 3), px(4, 5, 6)]);
}

#[test]
fn longer_header_is_skipped() {
    // a header of 52 bytes: 12 more than the fields take
    let mut file = headers(66, 52, 1, 1, 24, 0, 4);
    file.extend_from_slice(&[0xee; 12]);
    file.extend_from_slice(&[1, 2, 3, 0]);
    let bmp = BitmapFile::load(&file).unwrap();
    assert_eq!(bmp.pixel_array, vec![vec![px(1, 2, 3)]]);
    assert_eq!(bmp.image_header.header_size, 52);
}

#[test]
fn gap_before_the_payload_is_skipped() {
    let mut file = headers(60, 40, 1, 1, 24, 0, 4);
    file.extend_from_slice(&[0xee; 6]);
    file.extend_from_slice(&[1, 2, 3, 0]);
    let bmp = BitmapFile::load(&file).unwrap();
    assert_eq!(bmp.pixel_array, vec![vec![px(1, 2, 3)]]);
}

#[test]
fn offset_before_the_headers_end_skips_nothing() {
    let mut file = headers(10, 40, 1, 1, 24, 0, 4);
    file.extend_from_slice(&[1, 2, 3, 0]);
    let bmp = BitmapFile::load(&file).unwrap();
    assert_eq!(bmp.pixel_array, vec![vec![px(1, 2, 3)]]);
}

#[test]
fn offset_beyond_the_file_is_truncation() {
    let mut file = headers(1000, 40, 1, 1, 24, 0, 4);
    file.extend_from_slice(&[1, 2, 3, 0]);
    assert!(matches!(BitmapFile::load(&file), Err(Error::TruncatedInput)));
}

#[test]
fn palette_of_eight_bit_files_is_skipped() {
    // 256 entries of 4 bytes, then one scanline of 2 pixels padded to 4 bytes
    let mut file = headers(54 + 1024, 40, 2, 1, 8, 0, 4);
    file.extend_from_slice(&[0x55; 1024]);
    file.extend_from_slice(&[10, 20, 0, 0]);
    let bmp = BitmapFile::load(&file).unwrap();
    assert_eq!(bmp.pixel_array, vec![vec![px(10, 0, 0), px(20, 0, 0)]]);
    // without the palette the scanline is missing
    let mut short = headers(54 + 1024, 40, 2, 1, 8, 0, 4);
    short.extend_from_slice(&[10, 20, 0, 0]);
    assert!(matches!(BitmapFile::load(&short), Err(Error::TruncatedInput)));
}

#[test]
fn sixteen_bit_pixels_take_two_bytes() {
    let mut file = headers(54, 40, 3, 1, 16, 0, 8);
    file.extend_from_slice(&[1, 2, 3, 4, 5, 6, 0, 0]);
    let bmp = BitmapFile::load(&file).unwrap();
    assert_eq!(bmp.pixel_array, vec![vec![px(1, 2, 0), px(3, 4, 0), px(5, 6, 0)]]);
}

#[test]
fn picture_without_rows_or_columns() {
    let file = headers(54, 40, 5, 0, 24, 0, 1);
    let bmp = BitmapFile::load(&file).unwrap();
    assert!(bmp.pixel_array.is_empty());
    let file = headers(54, 40, 0, 3, 24, 0, 1);
    let bmp = BitmapFile::load(&file).unwrap();
    assert_eq!(bmp.pixel_array, vec![Vec::<BGRA>::new(); 3]);
}

#[test]
fn from_buffer_takes_four_bytes() {
    assert_eq!(BGRA::from_buffer(&[1, 2, 3, 4]).unwrap(), px(1, 2, 3));
    assert!(matches!(BGRA::from_buffer(&[1, 2, 3]), Err(Error::InvalidRange(3))));
    assert!(matches!(BGRA::from_buffer(&[]), Err(Error::InvalidRange(0))));
    assert!(matches!(BGRA::from_buffer(&[1, 2, 3, 4, 5]), Err(Error::InvalidRange(5))));
}

#[test]
fn from_group_fills_missing_samples_with_zero() {
    assert_eq!(BGRA::from_group(&[]), px(0, 0, 0));
    assert_eq!(BGRA::from_group(&[9]), px(9, 0, 0));
    assert_eq!(BGRA::from_group(&[9, 8]), px(9, 8, 0));
    assert_eq!(BGRA::from_group(&[9, 8, 7]), px(9, 8, 7));
    assert_eq!(BGRA::from_group(&[9, 8, 7, 6]), px(9, 8, 7));
}

#[test]
fn scanline_is_cut_into_groups() {
    assert_eq!(
        decode_scanline(&[1, 2, 3, 4, 5, 6, 7, 8], 2, 3),
        vec![px(1, 2, 3), px(4, 5, 6)]
    );
    assert_eq!(decode_scanline(&[1, 2, 3, 4], 4, 1).len(), 4);
    assert_eq!(decode_scanline(&[1, 2, 3, 4], 0, 3), Vec::<BGRA>::new());
}

#[test]
fn scanlines_are_read_in_stored_order() {
    let data = [1u8, 2, 3, 0, 4, 5, 6, 0, 7, 7];
    let mut reader = ByteReader::new(&data);
    let rows = read_scanlines(&mut reader, 1, 2, 24).unwrap();
    assert_eq!(rows, vec![vec![px(1, 2, 3)], vec![px(4, 5, 6)]]);
    assert_eq!(reader.remaining(), 2);
    let mut reader = ByteReader::new(&data);
    assert!(matches!(read_scanlines(&mut reader, 1, 3, 24), Err(Error::TruncatedInput)));
}

#[test]
fn reorient_reverses_rows() {
    let rows = vec![vec![px(1, 1, 1)], vec![px(2, 2, 2)], vec![px(3, 3, 3)]];
    assert_eq!(
        reorient(rows),
        vec![vec![px(3, 3, 3)], vec![px(2, 2, 2)], vec![px(1, 1, 1)]]
    );
    assert_eq!(reorient(Vec::new()), Vec::<Vec<BGRA>>::new());
}

#[test]
fn compression_codes() {
    assert_eq!(CompressionMethod::from_code(0), Some(CompressionMethod::BiRgb));
    assert_eq!(CompressionMethod::from_code(1), Some(CompressionMethod::BiRle8));
    assert_eq!(CompressionMethod::from_code(6), Some(CompressionMethod::BiAlphabitfields));
    assert_eq!(CompressionMethod::from_code(7), None);
    assert_eq!(CompressionMethod::from_code(10), None);
    assert_eq!(CompressionMethod::from_code(11), Some(CompressionMethod::BiCmyk));
    assert_eq!(CompressionMethod::from_code(13), Some(CompressionMethod::BiCmykrle4));
    assert_eq!(CompressionMethod::from_code(14), None);
    assert_eq!(CompressionMethod::BiCmykrle8.code(), 12);
    assert_eq!(CompressionMethod::BiPng.code(), 5);
    assert!(CompressionMethod::BiRgb.is_supported());
    assert!(!CompressionMethod::BiRle8.is_supported());
}

#[test]
fn palette_sizes() {
    assert_eq!(color_table_entry_count(1), 2);
    assert_eq!(color_table_entry_count(4), 16);
    assert_eq!(color_table_entry_count(8), 256);
    assert_eq!(color_table_entry_count(16), 0);
    assert_eq!(color_table_entry_count(24), 0);
}

fn skip_of(bits_offset: u32, header_size: u32, bit_depth: u16) -> u64 {
    let bytes = headers(bits_offset, header_size, 1, 1, bit_depth, 0, 4);
    let mut reader = ByteReader::new(&bytes);
    let file_header = BitmapFileHeader::read(&mut reader).unwrap();
    let image_header = BitmapImageHeader::read(&mut reader).unwrap();
    bytes_to_skip(&file_header, &image_header)
}

#[test]
fn bytes_between_header_and_payload() {
    assert_eq!(skip_of(54, 40, 24), 0);
    assert_eq!(skip_of(0, 40, 24), 0);
    assert_eq!(skip_of(100, 40, 24), 46);
    assert_eq!(skip_of(138, 124, 24), 84);
    assert_eq!(skip_of(200, 124, 24), 84 + 62);
    assert_eq!(skip_of(1078, 40, 8), 1024);
    assert_eq!(skip_of(1080, 40, 8), 1026);
    assert_eq!(skip_of(54, 40, 8), 1024);
    assert_eq!(skip_of(u32::MAX, u32::MAX, 24), u32::MAX as u64 - 40);
    assert_eq!(skip_of(u32::MAX, 40, 24), u32::MAX as u64 - 54);
}

#[test]
fn validation_reports_the_first_broken_rule() {
    let mut header = BitmapImageHeader {
        header_size: 40,
        width: 1,
        height: 1,
        color_planes: 1,
        bit_depth: 24,
        compression_method: 0,
        image_size: 4,
        pix_per_meter_x: 0,
        pix_per_meter_y: 0,
        color_count: 0,
        imp_color_count: 0,
    };
    assert!(header.validate().is_ok());
    header.color_planes = 3;
    assert!(header.validate().is_ok());
    header.image_size = 0;
    assert!(matches!(header.validate(), Err(Error::InvalidPixelData)));
    header.height = -1;
    assert!(matches!(header.validate(), Err(Error::NegativeDimension)));
    header.bit_depth = 32;
    assert!(matches!(header.validate(), Err(Error::UnsupportedBitDepth)));
    header.compression_method = 3;
    assert!(matches!(header.validate(), Err(Error::UnsupportedCompression)));
}

#[test]
fn reader_consumes_fields_in_order() {
    let data = [0x34u8, 0x12, 0x78, 0x56, 0x34, 0x12, 0xfe, 0xff, 0xff, 0xff, 0xab];
    let mut reader = ByteReader::new(&data);
    assert_eq!(reader.remaining(), 11);
    assert_eq!(reader.read_u16_le().unwrap(), 0x1234);
    assert_eq!(reader.read_u32_le().unwrap(), 0x12345678);
    assert_eq!(reader.read_i32_le().unwrap(), -2);
    assert_eq!(reader.remaining(), 1);
    assert!(matches!(reader.read_u16_le(), Err(Error::TruncatedInput)));
    assert!(matches!(reader.read_u32_le(), Err(Error::TruncatedInput)));
    assert!(matches!(reader.read_i32_le(), Err(Error::TruncatedInput)));
    assert_eq!(reader.remaining(), 1);
    assert_eq!(reader.read_fixed_bytes(1).unwrap(), &[0xab]);
    assert_eq!(reader.read_fixed_bytes(0).unwrap(), &[] as &[u8]);
    assert!(matches!(reader.read_fixed_bytes(1), Err(Error::TruncatedInput)));
}

#[test]
fn reader_skips() {
    let data = [1u8, 2, 3, 4, 5, 6];
    let mut reader = ByteReader::new(&data);
    assert!(reader.skip(4).is_ok());
    assert!(matches!(reader.skip(3), Err(Error::TruncatedInput)));
    assert!(matches!(reader.skip(u64::MAX), Err(Error::TruncatedInput)));
    assert_eq!(reader.read_u16_le().unwrap(), 0x0605);
    assert!(reader.skip(0).is_ok());
}

#[test]
fn source_failure_is_kept() {
    let cause = std::io::Error::new(std::io::ErrorKind::NotFound, "gone");
    match Error::from(cause) {
        Error::IO(inner) => assert_eq!(inner.kind(), std::io::ErrorKind::NotFound),
        _ => panic!("the cause was lost"),
    }
}

#[test]
fn nothing_is_consumed_behind_a_wrong_signature() {
    let mut file = two_by_two();
    file[0] = b'X';
    let mut reader = ByteReader::new(&file);
    assert!(matches!(BitmapFileHeader::read(&mut reader), Err(Error::InvalidSignature)));
    assert_eq!(reader.remaining(), file.len() - 2);
}

#[test]
fn headers_leave_the_cursor_behind_them() {
    let file = two_by_two();
    let mut reader = ByteReader::new(&file);
    assert!(BitmapFileHeader::read(&mut reader).is_ok());
    assert_eq!(reader.remaining(), file.len() - 14);
    assert!(BitmapImageHeader::read(&mut reader).is_ok());
    assert_eq!(reader.remaining(), file.len() - 54);
}
