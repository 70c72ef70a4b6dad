use std::io::Write;

use async_tiff::decoder::{ColorTransform, Decoder, DecoderRegistry, DeflateDecoder, JPEGDecoder, LZWDecoder};
use async_tiff::endian::Endianness;
use async_tiff::entry::read_tag;
use async_tiff::error::{AsyncTiffError, TiffError, TiffFormatError, TiffUnsupportedError, UsageError};
use async_tiff::fetch::{grow_prefix, within_prefix};
use async_tiff::geo_key_directory::GeoKeyDirectory;
use async_tiff::ifd::ImageFileDirectory;
use async_tiff::metadata::{read_header, TiffMetadataReader};
use async_tiff::predictor::{fix_endianness_to, rev_hpredict_nsamp_in, PredictorInfo};
use async_tiff::tags::{
    CompressionMethod, PhotometricInterpretation, PlanarConfiguration, Predictor, SampleFormat, Tag,
};
use async_tiff::tile::{DecodingResult, SampleKind, Tile};
use async_tiff::value::Value;

fn entry_le(tag: u16, typ: u16, count: u32, field: [u8; 4]) -> Vec<u8> {
    let mut v = Vec::new();
    v.extend_from_slice(&tag.to_le_bytes());
    v.extend_from_slice(&typ.to_le_bytes());
    v.extend_from_slice(&count.to_le_bytes());
    v.extend_from_slice(&field);
    v
}

fn short_field(x: u16) -> [u8; 4] {
    let b = x.to_le_bytes();
    [b[0], b[1], 0, 0]
}

fn long_field(x: u32) -> [u8; 4] {
    x.to_le_bytes()
}

/// A classic little-endian file with one IFD at offset 8 holding `entries`, followed by
/// `next` as its next-IFD offset, and `tail` after it.
fn classic_le_file(entries: &[Vec<u8>], next: u32, tail: &[u8]) -> Vec<u8> {
    let mut f = vec![b'I', b'I', 42, 0, 8, 0, 0, 0];
    f.extend_from_slice(&(entries.len() as u16).to_le_bytes());
    for e in entries {
        f.extend_from_slice(e);
    }
    f.extend_from_slice(&next.to_le_bytes());
    f.extend_from_slice(tail);
    f
}

fn strip_image_entries(width: u32, height: u32, bits: u16, offset: u32, count: u32) -> Vec<Vec<u8>> {
    vec![
        entry_le(256, 4, 1, long_field(width)),
        entry_le(257, 4, 1, long_field(height)),
        entry_le(258, 3, 1, short_field(bits)),
        entry_le(262, 3, 1, short_field(1)),
        entry_le(273, 4, 1, long_field(offset)),
        entry_le(277, 3, 1, short_field(1)),
        entry_le(278, 4, 1, long_field(height)),
        entry_le(279, 4, 1, long_field(count)),
    ]
}

fn tiled_ifd() -> ImageFileDirectory {
    let entries = vec![
        entry_le(256, 4, 1, long_field(100)),
        entry_le(257, 4, 1, long_field(50)),
        entry_le(258, 3, 1, short_field(8)),
        entry_le(262, 3, 1, short_field(1)),
        entry_le(277, 3, 1, short_field(1)),
        entry_le(322, 3, 1, short_field(64)),
        entry_le(323, 3, 1, short_field(64)),
        entry_le(324, 4, 2, long_field(200)),
        entry_le(325, 4, 2, long_field(208)),
    ];
    // the two tile offsets and byte counts stand at 200 and 208
    let mut f = classic_le_file(&entries, 0, &[]);
    f.resize(216, 0);
    f[200..204].copy_from_slice(&1000u32.to_le_bytes());
    f[204..208].copy_from_slice(&2000u32.to_le_bytes());
    f[208..212].copy_from_slice(&300u32.to_le_bytes());
    f[212..216].copy_from_slice(&400u32.to_le_bytes());
    let mut reader = TiffMetadataReader::try_open(&f).unwrap();
    let mut ifds = reader.read_all_ifds(&f).unwrap();
    ifds.remove(0)
}

#[test]
fn classic_le_short_list_in_field() {
    let buf = entry_le(0x0101, 3, 2, [42, 0, 42, 0]);
    assert_eq!(buf.len(), 12);
    let (tag, value) = read_tag(&buf, 0, Endianness::LittleEndian, false).unwrap();
    assert_eq!(tag, Tag::ImageLength);
    assert_eq!(value, Value::List(vec![Value::Short(42), Value::Short(42)]));
}

#[test]
fn bigtiff_be_double_in_field() {
    let mut buf = vec![0x01, 0x01, 0, 12, 0, 0, 0, 0, 0, 0, 0, 1];
    buf.extend_from_slice(&42.0f64.to_bits().to_be_bytes());
    assert_eq!(buf.len(), 20);
    let (_, value) = read_tag(&buf, 0, Endianness::BigEndian, true).unwrap();
    assert_eq!(value, Value::Double(42.0f64.to_bits()));
}

#[test]
fn entry_round_trip_both_orders_and_variants() {
    for (e, big) in [
        (Endianness::LittleEndian, false),
        (Endianness::BigEndian, false),
        (Endianness::LittleEndian, true),
        (Endianness::BigEndian, true),
    ] {
        let mut buf = Vec::new();
        let put16 = |x: u16| if e == Endianness::LittleEndian { x.to_le_bytes() } else { x.to_be_bytes() };
        buf.extend_from_slice(&put16(258));
        buf.extend_from_slice(&put16(4));
        if big {
            buf.extend_from_slice(&if e == Endianness::LittleEndian { 1u64.to_le_bytes() } else { 1u64.to_be_bytes() });
        } else {
            buf.extend_from_slice(&if e == Endianness::LittleEndian { 1u32.to_le_bytes() } else { 1u32.to_be_bytes() });
        }
        buf.extend_from_slice(&if e == Endianness::LittleEndian { 0xDEADBEEFu32.to_le_bytes() } else { 0xDEADBEEFu32.to_be_bytes() });
        if big {
            buf.extend_from_slice(&[0, 0, 0, 0]);
        }
        let (tag, value) = read_tag(&buf, 0, e, big).unwrap();
        assert_eq!(tag, Tag::BitsPerSample);
        assert_eq!(value, Value::Unsigned(0xDEADBEEF));
    }
}

#[test]
fn entry_errors() {
    let buf = entry_le(0x0101, 3, 1, [1, 0, 0, 0]);
    assert_eq!(read_tag(&buf[..11], 0, Endianness::LittleEndian, false).unwrap_err(), AsyncTiffError::EndOfFile(0, 12));
    let unknown = entry_le(0x0101, 14, 1, [1, 0, 0, 0]);
    assert_eq!(
        read_tag(&unknown, 0, Endianness::LittleEndian, false).unwrap_err(),
        AsyncTiffError::InternalTIFFError(TiffError::FormatError(TiffFormatError::UnknownTagType(14)))
    );
    let not_ascii = entry_le(0x010e, 2, 3, [b'A', 200, 0, 0]);
    assert_eq!(
        read_tag(&not_ascii, 0, Endianness::LittleEndian, false).unwrap_err(),
        AsyncTiffError::InternalTIFFError(TiffError::FormatError(TiffFormatError::InvalidTag))
    );
    let pointer_past_end = entry_le(0x0101, 4, 3, [100, 0, 0, 0]);
    assert_eq!(read_tag(&pointer_past_end, 0, Endianness::LittleEndian, false).unwrap_err(), AsyncTiffError::EndOfFile(100, 12));
    let empty = entry_le(0x0101, 4, 0, [9, 9, 9, 9]);
    assert_eq!(read_tag(&empty, 0, Endianness::LittleEndian, false).unwrap().1, Value::List(vec![]));
    let text = entry_le(0x010e, 2, 4, [b'A', 0, b'B', 0]);
    assert_eq!(read_tag(&text, 0, Endianness::LittleEndian, false).unwrap().1, Value::Ascii("A".to_string()));
}

#[test]
fn header_errors() {
    assert_eq!(read_header(&[b'I']).unwrap_err(), AsyncTiffError::EndOfFile(0, 2));
    assert_eq!(
        read_header(&[b'X', b'X', 42, 0, 8, 0, 0, 0]).unwrap_err(),
        AsyncTiffError::InternalTIFFError(TiffError::FormatError(TiffFormatError::TiffSignatureInvalid))
    );
    assert_eq!(
        read_header(&[b'I', b'I', 44, 0, 8, 0, 0, 0]).unwrap_err(),
        AsyncTiffError::InternalTIFFError(TiffError::FormatError(TiffFormatError::TiffSignatureInvalid))
    );
    assert_eq!(
        read_header(&[b'I', b'I', 43, 0, 4, 0, 0, 0, 16, 0, 0, 0, 0, 0, 0, 0]).unwrap_err(),
        AsyncTiffError::InternalTIFFError(TiffError::FormatError(TiffFormatError::TiffSignatureNotFound))
    );
    assert_eq!(read_header(&[b'M', b'M', 0, 42, 0, 0, 0, 8]).unwrap(), (Endianness::BigEndian, false, 8));
    assert_eq!(
        read_header(&[b'I', b'I', 43, 0, 8, 0, 0, 0, 16, 0, 0, 0, 0, 0, 0, 0]).unwrap(),
        (Endianness::LittleEndian, true, 16)
    );
}

#[test]
fn strip_image_metadata() {
    let f = classic_le_file(&strip_image_entries(64, 64, 8, 16, 4096), 0, &[]);
    let mut reader = TiffMetadataReader::try_open(&f).unwrap();
    assert_eq!(reader.endianness(), Endianness::LittleEndian);
    assert!(!reader.bigtiff());
    assert_eq!(reader.next_ifd_offset(), Some(8));
    let ifds = reader.read_all_ifds(&f).unwrap();
    assert!(!reader.has_next_ifd());
    assert_eq!(ifds.len(), 1);
    let ifd = &ifds[0];
    assert_eq!(ifd.image_width(), 64);
    assert_eq!(ifd.image_height(), 64);
    assert_eq!(ifd.bits_per_sample(), &[8]);
    assert_eq!(ifd.photometric_interpretation(), PhotometricInterpretation::BlackIsZero);
    assert_eq!(ifd.compression(), CompressionMethod::Uncompressed);
    assert_eq!(ifd.planar_configuration(), PlanarConfiguration::Chunky);
    assert_eq!(ifd.sample_format(), &[SampleFormat::Uint]);
    assert_eq!(ifd.strip_offsets(), Some(&[16u64][..]));
    assert_eq!(ifd.strip_byte_counts(), Some(&[4096u64][..]));
    assert_eq!(ifd.rows_per_strip(), Some(64));
    assert_eq!(ifd.next_ifd_offset(), None);
    assert_eq!(ifd.get_tile_byte_range(0, 0).unwrap(), (16, 4112));
}

#[test]
fn ifd_chain_with_cycle_ends() {
    // the IFD's next offset points back at itself
    let f = classic_le_file(&strip_image_entries(4, 4, 8, 16, 16), 8, &[]);
    let mut reader = TiffMetadataReader::try_open(&f).unwrap();
    let ifds = reader.read_all_ifds(&f).unwrap();
    assert_eq!(ifds.len(), 1);
    assert!(!reader.has_next_ifd());
}

#[test]
fn ifd_required_tags_and_conflicts() {
    let mut entries = strip_image_entries(4, 4, 8, 16, 16);
    entries.remove(0);
    let f = classic_le_file(&entries, 0, &[]);
    let mut reader = TiffMetadataReader::try_open(&f).unwrap();
    assert_eq!(
        reader.read_all_ifds(&f).unwrap_err(),
        AsyncTiffError::InternalTIFFError(TiffError::FormatError(TiffFormatError::RequiredTagNotFound(Tag::ImageWidth)))
    );
    let mut entries = strip_image_entries(4, 4, 8, 16, 16);
    entries.retain(|e| e[0] != 17 && e[0] != 23);
    let f = classic_le_file(&entries, 0, &[]);
    let mut reader = TiffMetadataReader::try_open(&f).unwrap();
    assert_eq!(
        reader.read_all_ifds(&f).unwrap_err(),
        AsyncTiffError::InternalTIFFError(TiffError::FormatError(TiffFormatError::StripTileTagConflict))
    );
    let mut entries = strip_image_entries(4, 4, 8, 16, 16);
    entries[0] = entry_le(256, 2, 1, [0, 0, 0, 0]);
    let f = classic_le_file(&entries, 0, &[]);
    let mut reader = TiffMetadataReader::try_open(&f).unwrap();
    assert_eq!(
        reader.read_all_ifds(&f).unwrap_err(),
        AsyncTiffError::InternalTIFFError(TiffError::FormatError(TiffFormatError::InvalidTagValueType(Tag::ImageWidth)))
    );
}

#[test]
fn ifd_from_tags_last_entry_wins_and_keeps_unknown_tags() {
    let tags = vec![
        (Tag::ImageWidth, Value::Short(10)),
        (Tag::ImageLength, Value::Unsigned(20)),
        (Tag::BitsPerSample, Value::List(vec![Value::Short(16), Value::Short(16)])),
        (Tag::PhotometricInterpretation, Value::Short(2)),
        (Tag::SamplesPerPixel, Value::Short(2)),
        (Tag::TileOffsets, Value::Unsigned(0)),
        (Tag::TileByteCounts, Value::Unsigned(0)),
        (Tag::ImageWidth, Value::Short(11)),
        (Tag::Unknown(42112), Value::Ascii("nodata".to_string())),
    ];
    let ifd = ImageFileDirectory::from_tags(tags, Endianness::BigEndian, Some(99)).unwrap();
    assert_eq!(ifd.image_width(), 11);
    assert_eq!(ifd.photometric_interpretation(), PhotometricInterpretation::RGB);
    assert_eq!(ifd.sample_format(), &[SampleFormat::Uint, SampleFormat::Uint]);
    assert_eq!(ifd.other_tags(), &[(Tag::Unknown(42112), Value::Ascii("nodata".to_string()))]);
    assert_eq!(ifd.next_ifd_offset(), Some(99));
    let mixed = vec![
        (Tag::ImageWidth, Value::Short(10)),
        (Tag::ImageLength, Value::Unsigned(20)),
        (Tag::BitsPerSample, Value::List(vec![Value::Short(8), Value::Short(16)])),
        (Tag::PhotometricInterpretation, Value::Short(2)),
        (Tag::SamplesPerPixel, Value::Short(2)),
        (Tag::StripOffsets, Value::Unsigned(0)),
        (Tag::StripByteCounts, Value::Unsigned(0)),
    ];
    assert_eq!(
        ImageFileDirectory::from_tags(mixed, Endianness::BigEndian, None).err(),
        Some(AsyncTiffError::InternalTIFFError(TiffError::UnsupportedError(TiffUnsupportedError::InconsistentBitsPerSample)))
    );
}

#[test]
fn tile_byte_range_matches_byte_counts() {
    let ifd = tiled_ifd();
    assert_eq!(ifd.tile_count(), Some((2, 1)));
    let (s0, e0) = ifd.get_tile_byte_range(0, 0).unwrap();
    assert_eq!((s0, e0), (1000, 1300));
    let (s1, e1) = ifd.get_tile_byte_range(1, 0).unwrap();
    assert_eq!(e1 - s1, 400);
    assert_eq!(ifd.get_tile_byte_range(2, 0).unwrap_err(), AsyncTiffError::TileIndexError(2, 2));
    assert_eq!(ifd.get_tile_byte_range(0, 1).unwrap_err(), AsyncTiffError::TileIndexError(1, 1));
    assert_eq!(ifd.tile_byte_ranges(&[0, 1], &[0, 0]).unwrap(), vec![(1000, 1300), (2000, 2400)]);
    assert_eq!(
        ifd.tile_byte_ranges(&[0], &[0, 0]).unwrap_err(),
        AsyncTiffError::InternalTIFFError(TiffError::UsageError(UsageError::MismatchedCoordinates))
    );
    assert_eq!(ifd.tile_byte_ranges(&[1, 5, 0], &[0, 0, 3]).unwrap_err(), AsyncTiffError::TileIndexError(5, 2));
}

fn float_info() -> PredictorInfo {
    PredictorInfo {
        endianness: Endianness::LittleEndian,
        image_width: 2,
        image_height: 2,
        chunk_width: 2,
        chunk_height: 2,
        bits_per_sample: 32,
        samples_per_pixel: 1,
        sample_format: SampleFormat::IEEEFP,
        planar_configuration: PlanarConfiguration::Chunky,
    }
}

#[test]
fn floating_point_predictor_tile_decodes() {
    // each row [42.0, 43.0], shuffled into byte planes, then differenced bytewise
    let row = [0x42u8, 0, 0xE6, 4, 0xD4, 0, 0, 0];
    let mut compressed = row.to_vec();
    compressed.extend_from_slice(&row);
    let tile = Tile {
        x: 0,
        y: 0,
        predictor: Predictor::FloatingPoint,
        predictor_info: float_info(),
        compressed_bytes: compressed,
        compression_method: CompressionMethod::Uncompressed,
        photometric_interpretation: PhotometricInterpretation::BlackIsZero,
        jpeg_tables: None,
    };
    let res = tile.decode(&DecoderRegistry::default()).unwrap();
    assert_eq!(res.kind, SampleKind::F32);
    assert_eq!(res.as_u8_buf(), &[0, 0, 0x28, 0x42, 0, 0, 0x2C, 0x42, 0, 0, 0x28, 0x42, 0, 0, 0x2C, 0x42]);
}

#[test]
fn deflate_and_lzw_tiles_decode() {
    let pixels: Vec<u8> = (0..16u8).collect();
    let mut enc = flate2::write::ZlibEncoder::new(Vec::new(), flate2::Compression::default());
    enc.write_all(&pixels).unwrap();
    let zlib = enc.finish().unwrap();
    let mut info = float_info();
    info.image_width = 4;
    info.image_height = 4;
    info.chunk_width = 4;
    info.chunk_height = 4;
    info.bits_per_sample = 8;
    info.sample_format = SampleFormat::Uint;
    let mut tile = Tile {
        x: 0,
        y: 0,
        predictor: Predictor::NoPredictor,
        predictor_info: info,
        compressed_bytes: zlib,
        compression_method: CompressionMethod::Deflate,
        photometric_interpretation: PhotometricInterpretation::BlackIsZero,
        jpeg_tables: None,
    };
    let registry = DecoderRegistry::default();
    assert_eq!(tile.decode(&registry).unwrap().as_u8_buf(), &pixels[..]);
    let lzw = weezl::encode::Encoder::with_tiff_size_switch(weezl::BitOrder::Msb, 8).encode(&pixels).unwrap();
    tile.compressed_bytes = lzw;
    tile.compression_method = CompressionMethod::LZW;
    assert_eq!(tile.decode(&registry).unwrap().as_u8_buf(), &pixels[..]);
    tile.compression_method = CompressionMethod::PackBits;
    assert_eq!(
        tile.decode(&registry).err(),
        Some(AsyncTiffError::InternalTIFFError(TiffError::UnsupportedError(
            TiffUnsupportedError::UnsupportedCompressionMethod(CompressionMethod::PackBits)
        )))
    );
    tile.compression_method = CompressionMethod::Deflate;
    tile.compressed_bytes = vec![1, 2, 3];
    assert_eq!(tile.decode(&registry).err(), Some(AsyncTiffError::IOError));
    let mut direct = [0u8; 4];
    assert!(DeflateDecoder.decode_tile(&[0, 0, 0], &mut direct).is_err());
    assert!(LZWDecoder.decode_tile(&[0xFF, 0xFF, 0xFF], &mut direct).is_err() || direct != [9; 4]);
}

#[test]
fn horizontal_predictor_tile_decodes() {
    let mut info = float_info();
    info.bits_per_sample = 8;
    info.sample_format = SampleFormat::Uint;
    let tile = Tile {
        x: 0,
        y: 0,
        predictor: Predictor::Horizontal,
        predictor_info: info,
        compressed_bytes: vec![1, 1, 5, 250],
        compression_method: CompressionMethod::Uncompressed,
        photometric_interpretation: PhotometricInterpretation::BlackIsZero,
        jpeg_tables: None,
    };
    let mut registry = DecoderRegistry::new();
    registry.add(CompressionMethod::Uncompressed, Decoder::Uncompressed(async_tiff::decoder::UncompressedDecoder));
    assert_eq!(tile.decode(&registry).unwrap().as_u8_buf(), &[1, 2, 5, 255]);
    let short = Tile { compressed_bytes: vec![1, 2, 3], ..tile };
    assert_eq!(
        short.decode(&registry).err(),
        Some(AsyncTiffError::InternalTIFFError(TiffError::FormatError(TiffFormatError::UnexpectedCompressedData(3, 4))))
    );
}

#[test]
fn jpeg_stream_splices_tables() {
    let tile = [0xFF, 0xD8, 1, 2, 3];
    let tables = [0xFF, 0xD8, 7, 8, 0xFF, 0xD9];
    assert_eq!(JPEGDecoder.jpeg_input(&tile, Some(&tables)), vec![0xFF, 0xD8, 7, 8, 1, 2, 3]);
    assert_eq!(JPEGDecoder.jpeg_input(&tile, None), tile.to_vec());
    assert_eq!(JPEGDecoder.jpeg_input(&tile, Some(&[])), tile.to_vec());
    assert_eq!(JPEGDecoder.color_transform(PhotometricInterpretation::YCbCr).unwrap(), ColorTransform::YCbCr);
    assert!(JPEGDecoder.color_transform(PhotometricInterpretation::CIELab).is_err());
}

#[test]
fn decoded_buffer_sizes_include_edge_chunks() {
    let info = PredictorInfo {
        endianness: Endianness::LittleEndian,
        image_width: 7,
        image_height: 7,
        chunk_width: 4,
        chunk_height: 4,
        bits_per_sample: 16,
        samples_per_pixel: 3,
        sample_format: SampleFormat::Int,
        planar_configuration: PlanarConfiguration::Chunky,
    };
    assert_eq!(DecodingResult::from_predictor_info(info, 0, 0).unwrap().bytes.len(), 4 * 4 * 48 / 8);
    assert_eq!(DecodingResult::from_predictor_info(info, 1, 1).unwrap().bytes.len(), 3 * 3 * 48 / 8);
    assert_eq!(DecodingResult::from_predictor_info(info, 1, 0).unwrap().kind, SampleKind::I16);
    assert!(DecodingResult::from_predictor_info(info, 2, 0).is_err());
    let mut odd = info;
    odd.sample_format = SampleFormat::IEEEFP;
    assert_eq!(
        DecodingResult::from_predictor_info(odd, 0, 0).err(),
        Some(AsyncTiffError::InternalTIFFError(TiffError::UnsupportedError(TiffUnsupportedError::UnsupportedBitsPerChannel(16))))
    );
}

#[test]
fn horizontal_differencing_round_trip() {
    let original: Vec<u16> = vec![500, 7, 65535, 1, 300, 300];
    let mut diffed = Vec::new();
    for i in 0..original.len() {
        let d = if i < 2 { original[i] } else { original[i].wrapping_sub(original[i - 2]) };
        diffed.extend_from_slice(&d.to_be_bytes());
    }
    rev_hpredict_nsamp_in(&mut diffed, 16, 2, Endianness::BigEndian);
    let back: Vec<u16> = diffed.chunks(2).map(|c| u16::from_be_bytes([c[0], c[1]])).collect();
    assert_eq!(back, original);
}

#[test]
fn byte_order_fix_reverses_groups() {
    let mut buf = [1u8, 2, 3, 4, 5, 6, 7, 8, 9];
    fix_endianness_to(&mut buf, Endianness::BigEndian, Endianness::LittleEndian, 32);
    assert_eq!(buf, [4, 3, 2, 1, 8, 7, 6, 5, 9]);
    let mut same = [1u8, 2, 3, 4];
    fix_endianness_to(&mut same, Endianness::BigEndian, Endianness::BigEndian, 16);
    assert_eq!(same, [1, 2, 3, 4]);
}

#[test]
fn geo_key_directory_parses() {
    let dir = vec![1, 1, 0, 4, 1024, 0, 1, 2, 1026, 34737, 6, 0, 3072, 0, 1, 32633, 2057, 34736, 1, 1, 9999, 0, 1, 5];
    let ascii = Some("WGS 84|junk|".to_string());
    let doubles = Some(vec![1.0f64.to_bits(), 6378137.0f64.to_bits()]);
    let g = GeoKeyDirectory::from_raw(&dir, &ascii, &doubles).unwrap();
    assert_eq!(g.model_type(), Some(2));
    assert_eq!(g.citation(), Some("WGS 84"));
    assert_eq!(g.epsg_code(), Some(32633));
    assert_eq!(g.geog_semi_major_axis(), Some(6378137.0f64.to_bits()));
    assert!(GeoKeyDirectory::from_raw(&vec![2, 1, 0, 0], &None, &None).is_none());
    assert!(GeoKeyDirectory::from_raw(&vec![1, 1, 0, 1, 1026, 34737, 3, 0], &None, &None).is_none());
}

#[test]
fn colormap_scales_to_eight_bits() {
    let cm: Vec<u16> = vec![0, 21845, 43690, 65535, 514, 0, 0, 0, 0, 0, 0, 65279];
    let tags = vec![
        (Tag::ImageWidth, Value::Short(1)),
        (Tag::ImageLength, Value::Short(1)),
        (Tag::BitsPerSample, Value::Short(2)),
        (Tag::PhotometricInterpretation, Value::Short(3)),
        (Tag::SamplesPerPixel, Value::Short(1)),
        (Tag::StripOffsets, Value::Short(8)),
        (Tag::StripByteCounts, Value::Short(1)),
        (Tag::ColorMap, Value::List(cm.iter().map(|v| Value::Short(*v)).collect())),
    ];
    let ifd = ImageFileDirectory::from_tags(tags, Endianness::LittleEndian, None).unwrap();
    assert_eq!(ifd.colormap().unwrap(), vec![(0, 2, 0), (85, 0, 0), (170, 0, 0), (255, 0, 254)]);
}

#[test]
fn prefetch_decisions() {
    assert!(within_prefix(100, 10, 100));
    assert!(!within_prefix(100, 10, 101));
    assert_eq!(grow_prefix(100, AsyncTiffError::EndOfFile(150, 100)), Some(250));
    assert_eq!(grow_prefix(100, AsyncTiffError::EndOfFile(90, 20)), Some(200));
    assert_eq!(grow_prefix(100, AsyncTiffError::EndOfFile(10, 20)), None);
    assert_eq!(grow_prefix(100, AsyncTiffError::IOError), None);
}

#[test]
fn tiff_opens_from_head_bytes() {
    let f = classic_le_file(&strip_image_entries(8, 8, 8, 16, 64), 0, &[]);
    let tiff = async_tiff::cog::TIFF::try_open(&f).unwrap();
    assert_eq!(tiff.ifds().len(), 1);
    assert_eq!(
        async_tiff::cog::TIFF::try_open(&f[..40]).err(),
        Some(AsyncTiffError::EndOfFile(8, 2 + 8 * 12 + 4))
    );
}

#[test]
fn decoding_errors_are_exact() {
    let info = PredictorInfo {
        endianness: Endianness::LittleEndian,
        image_width: 7,
        image_height: 7,
        chunk_width: 4,
        chunk_height: 4,
        bits_per_sample: 8,
        samples_per_pixel: 1,
        sample_format: SampleFormat::Uint,
        planar_configuration: PlanarConfiguration::Chunky,
    };
    let res = DecodingResult::from_predictor_info(info, 1, 1).unwrap();
    assert!(res.bytes.iter().all(|b| *b == 0));
    assert_eq!(DecodingResult::from_predictor_info(info, 2, 0).err(), Some(AsyncTiffError::TileIndexError(2, 2)));
    assert_eq!(DecodingResult::from_predictor_info(info, 0, 5).err(), Some(AsyncTiffError::TileIndexError(5, 2)));
    let mut void = info;
    void.sample_format = SampleFormat::Void;
    assert_eq!(
        DecodingResult::from_predictor_info(void, 0, 0).err(),
        Some(AsyncTiffError::InternalTIFFError(TiffError::UnsupportedError(TiffUnsupportedError::UnsupportedSampleFormat(SampleFormat::Void))))
    );
    let mut wide = info;
    wide.bits_per_sample = 65;
    assert_eq!(
        DecodingResult::from_predictor_info(wide, 0, 0).err(),
        Some(AsyncTiffError::InternalTIFFError(TiffError::UnsupportedError(TiffUnsupportedError::UnsupportedBitsPerChannel(65))))
    );
    let mut buf = [0u8; 16];
    assert_eq!(async_tiff::predictor::unpredict_hdiff(&mut buf, &info, 3).unwrap_err(), AsyncTiffError::TileIndexError(3, 2));
    let mut out = [0u8; 16];
    assert_eq!(async_tiff::predictor::unpredict_float(&mut buf, &mut out, &info, 2).unwrap_err(), AsyncTiffError::TileIndexError(2, 2));
    assert_eq!(
        async_tiff::predictor::unpredict_float(&mut buf, &mut out, &info, 0).unwrap_err(),
        AsyncTiffError::InternalTIFFError(TiffError::UnsupportedError(TiffUnsupportedError::UnsupportedBitsPerChannel(8)))
    );
    let tile = Tile {
        x: 0,
        y: 0,
        predictor: Predictor::NoPredictor,
        predictor_info: info,
        compressed_bytes: vec![1, 2, 3],
        compression_method: CompressionMethod::LZW,
        photometric_interpretation: PhotometricInterpretation::BlackIsZero,
        jpeg_tables: None,
    };
    let mut kept = [7u8; 4];
    assert_eq!(tile.decode_into(&DecoderRegistry::new(), &mut kept).unwrap_err(), AsyncTiffError::InternalTIFFError(
        TiffError::UnsupportedError(TiffUnsupportedError::UnsupportedCompressionMethod(CompressionMethod::LZW))
    ));
    assert_eq!(kept, [7u8; 4]);
    assert_eq!(tile.decode_into(&DecoderRegistry::default(), &mut kept).unwrap_err(), AsyncTiffError::External);
}

#[test]
fn lzw_leaves_bytes_past_the_stream() {
    let lzw = weezl::encode::Encoder::with_tiff_size_switch(weezl::BitOrder::Msb, 8).encode(&[1, 2, 3]).unwrap();
    let mut out = [9u8; 5];
    LZWDecoder.decode_tile(&lzw, &mut out).unwrap();
    assert_eq!(out, [1, 2, 3, 9, 9]);
}

#[test]
fn caller_codec_output_goes_through_the_predictor() {
    let mut info = float_info();
    info.bits_per_sample = 8;
    info.sample_format = SampleFormat::Uint;
    let tile = Tile {
        x: 0,
        y: 0,
        predictor: Predictor::Horizontal,
        predictor_info: info,
        compressed_bytes: vec![],
        compression_method: CompressionMethod::Unknown(34712),
        photometric_interpretation: PhotometricInterpretation::BlackIsZero,
        jpeg_tables: None,
    };
    let mut out = [0u8; 4];
    tile.decode_decompressed(&[3, 1, 0, 2], &mut out).unwrap();
    assert_eq!(out, [3, 4, 0, 2]);
    assert_eq!(
        tile.decode_decompressed(&[3, 1], &mut out).unwrap_err(),
        AsyncTiffError::InternalTIFFError(TiffError::FormatError(TiffFormatError::UnexpectedCompressedData(2, 4)))
    );
}
