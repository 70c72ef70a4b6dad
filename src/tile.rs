//! A fetched chunk (tile or strip) of an image, and its decoding into pixel bytes.
use vstd::prelude::*;

use crate::decoder::{lzw_filled, lzw_ok, zlib_decoded, zlib_fills, Decoder, DecoderRegistry, UncompressedDecoder};
use crate::error::{format_err, unsupported_err, TiffFormatError, AsyncTiffError, AsyncTiffResult, TiffError, TiffUnsupportedError};
use crate::predictor::{
    endian_fixed, fix_endianness_to, float_input_stride, float_rows_reverted, native_endianness,
    row_stride, rows_hdiff_reverted, depth_width, hdiff_supported, float_supported, unpredict_float, unpredict_hdiff, zeros,
    PredictorInfo,
};
use crate::tags::{CompressionMethod, PhotometricInterpretation, Predictor, SampleFormat, PlanarConfiguration};
use crate::endian::Endianness;

verus! {

/// `out` is what codec `d` writes over `old_out` when it decodes `input` and succeeds.
pub open spec fn codec_output(d: Decoder, input: Seq<u8>, old_out: Seq<u8>, out: Seq<u8>) -> bool {
    &&& out.len() == old_out.len()
    &&& match d {
        Decoder::Uncompressed(_) => out == input,
        Decoder::Deflate(_) => out == zlib_decoded(input).subrange(0, old_out.len() as int),
        Decoder::LZW(_) => lzw_filled(input, old_out, out),
    }
}

/// Codec `d` succeeds on `input` for an output of `n` bytes.
pub open spec fn codec_ok(d: Decoder, input: Seq<u8>, n: nat) -> bool {
    match d {
        Decoder::Uncompressed(_) => input.len() == n,
        Decoder::Deflate(_) => zlib_fills(input, n),
        Decoder::LZW(_) => lzw_ok(input),
    }
}

/// The error of codec `d` where it fails on `input` for an output of `n` bytes.
pub open spec fn codec_err(d: Decoder, input: Seq<u8>, n: nat) -> AsyncTiffError {
    match d {
        Decoder::Uncompressed(_) => format_err(TiffFormatError::UnexpectedCompressedData(input.len() as u64, n as u64)),
        Decoder::Deflate(_) => AsyncTiffError::IOError,
        Decoder::LZW(_) => AsyncTiffError::External,
    }
}

/// Runs codec `d` on `input` into `out`.
pub fn run_codec(d: Decoder, input: &[u8], out: &mut [u8]) -> (r: AsyncTiffResult<()>)
    ensures
        final(out)@.len() == old(out)@.len(),
        r is Ok <==> codec_ok(d, input@, old(out)@.len()),
        r is Ok ==> codec_output(d, input@, old(out)@, final(out)@),
        r is Err ==> r == Err::<(), AsyncTiffError>(codec_err(d, input@, old(out)@.len())),
{
    match d {
        Decoder::Uncompressed(c) => c.decode_tile(input, out),
        Decoder::Deflate(c) => c.decode_tile(input, out),
        Decoder::LZW(c) => c.decode_tile(input, out),
    }
}

/// Predictor `p` can be reverted on a decoded chunk of `n` bytes of column `x`.
pub open spec fn predictor_ok(p: Predictor, info: PredictorInfo, x: int, n: nat) -> bool {
    match p {
        Predictor::NoPredictor => true,
        Predictor::Horizontal => x < info.spec_chunks_across() && hdiff_supported(info, x, n as int),
        Predictor::FloatingPoint => x < info.spec_chunks_across() && float_supported(info, x),
    }
}

/// The error of reverting a predictor where it cannot be: a column past the image, else an
/// unsupported sample depth.
pub open spec fn predictor_err(info: PredictorInfo, x: int) -> AsyncTiffError {
    if x >= info.spec_chunks_across() {
        AsyncTiffError::TileIndexError(x as u32, info.spec_chunks_across() as u32)
    } else {
        unsupported_err(TiffUnsupportedError::UnsupportedBitsPerChannel(info.bits_per_sample))
    }
}

/// Why decoding `input` with codec `d` into `n` bytes for tile `t` fails: the codec's error, or
/// the predictor's; `None` where it succeeds.
pub open spec fn step_error(t: &Tile, d: Decoder, input: Seq<u8>, n: nat) -> Option<AsyncTiffError> {
    if !codec_ok(d, input, n) {
        Some(codec_err(d, input, n))
    } else if !predictor_ok(t.predictor, t.predictor_info, t.x as int, n) {
        Some(predictor_err(t.predictor_info, t.x as int))
    } else {
        None
    }
}

/// Why decoding tile `t` into `n` bytes with codec `d` fails: no codec, the codec's error, or
/// the predictor's; `None` where it succeeds.
pub open spec fn decode_error(t: &Tile, d: Option<Decoder>, n: nat) -> Option<AsyncTiffError> {
    match d {
        None => Some(unsupported_err(TiffUnsupportedError::UnsupportedCompressionMethod(t.compression_method))),
        Some(d) => step_error(t, d, t.compressed_bytes@, n),
    }
}

/// The kind and size of the buffer for the chunk at column `x` and row `y`, or why there is
/// none: a chunk beyond the image, an unsupported sample depth or format, or a size beyond
/// the platform's.
pub open spec fn result_layout(info: PredictorInfo, x: u32, y: u32) -> Result<(SampleKind, nat), AsyncTiffError> {
    if x >= info.spec_chunks_across() {
        Err(AsyncTiffError::TileIndexError(x, info.spec_chunks_across() as u32))
    } else if y >= info.spec_chunks_down() {
        Err(AsyncTiffError::TileIndexError(y, info.spec_chunks_down() as u32))
    } else {
        match sample_kind_of(info.sample_format, info.bits_per_sample) {
            None => match info.sample_format {
                SampleFormat::Uint | SampleFormat::Int | SampleFormat::IEEEFP => Err(
                    unsupported_err(TiffUnsupportedError::UnsupportedBitsPerChannel(info.bits_per_sample)),
                ),
                f => Err(unsupported_err(TiffUnsupportedError::UnsupportedSampleFormat(f))),
            },
            Some(k) => if chunk_bytes(info, x as int, y as int, k) > usize::MAX {
                Err(AsyncTiffError::InternalTIFFError(TiffError::IntSizeError))
            } else {
                Ok((k, chunk_bytes(info, x as int, y as int, k) as nat))
            },
        }
    }
}

/// A fetched chunk: its compressed bytes and what decoding them needs.
#[derive(Debug)]
pub struct Tile {
    pub x: u32,
    pub y: u32,
    pub predictor: Predictor,
    pub predictor_info: PredictorInfo,
    pub compressed_bytes: Vec<u8>,
    pub compression_method: CompressionMethod,
    pub photometric_interpretation: PhotometricInterpretation,
    pub jpeg_tables: Option<Vec<u8>>,
}

/// The kind of the samples of a decoded chunk.
#[derive(Debug, Clone, Copy, PartialEq, Eq, Structural)]
pub enum SampleKind {
    U8,
    U16,
    U32,
    U64,
    I8,
    I16,
    I32,
    I64,
    F32,
    F64,
}

/// The kind of the samples of a format and depth, if it is supported.
pub open spec fn sample_kind_of(f: SampleFormat, bits: u16) -> Option<SampleKind> {
    match f {
        SampleFormat::Uint => if bits <= 8 {
            Some(SampleKind::U8)
        } else if bits <= 16 {
            Some(SampleKind::U16)
        } else if bits <= 32 {
            Some(SampleKind::U32)
        } else if bits <= 64 {
            Some(SampleKind::U64)
        } else {
            None
        },
        SampleFormat::Int => if bits <= 8 {
            Some(SampleKind::I8)
        } else if bits <= 16 {
            Some(SampleKind::I16)
        } else if bits <= 32 {
            Some(SampleKind::I32)
        } else if bits <= 64 {
            Some(SampleKind::I64)
        } else {
            None
        },
        SampleFormat::IEEEFP => if bits == 32 {
            Some(SampleKind::F32)
        } else if bits == 64 {
            Some(SampleKind::F64)
        } else {
            None
        },
        _ => None,
    }
}

/// Bytes of one sample of a kind.
pub open spec fn kind_size(k: SampleKind) -> int {
    match k {
        SampleKind::U8 | SampleKind::I8 => 1,
        SampleKind::U16 | SampleKind::I16 => 2,
        SampleKind::U32 | SampleKind::I32 | SampleKind::F32 => 4,
        SampleKind::U64 | SampleKind::I64 | SampleKind::F64 => 8,
    }
}

/// The samples of a decoded chunk, as bytes in the machine's byte order.
#[derive(Debug)]
pub struct DecodingResult {
    pub kind: SampleKind,
    pub bytes: Vec<u8>,
}

/// Samples of each pixel of a chunk's rows: all of them where they are interleaved, one where
/// each sample has its own plane.
pub open spec fn row_samples(info: PredictorInfo) -> int {
    match info.planar_configuration {
        PlanarConfiguration::Chunky => info.samples_per_pixel as int,
        PlanarConfiguration::Planar => 1,
    }
}

/// The size in bytes of the decoded chunk at column `x` and row `y`.
pub open spec fn chunk_bytes(info: PredictorInfo, x: int, y: int, k: SampleKind) -> int {
    crate::predictor::chunk_extent(info.image_width as int, info.chunk_width as int, x)
        * crate::predictor::chunk_extent(info.image_height as int, info.chunk_height as int, y) * row_samples(info)
        * kind_size(k)
}

/// For samples of 8, 16, 32 or 64 bits, the decoded chunk at column `x` and row `y` takes
/// its width in pixels times its height in pixels times the bits per pixel, over 8.
pub proof fn lemma_buffer_sizing(info: PredictorInfo, x: int, y: int, k: SampleKind)
    requires
        info.bits_per_sample == 8 || info.bits_per_sample == 16 || info.bits_per_sample == 32
            || info.bits_per_sample == 64,
        sample_kind_of(info.sample_format, info.bits_per_sample) == Some(k),
    ensures
        chunk_bytes(info, x, y, k) == crate::predictor::chunk_extent(info.image_width as int, info.chunk_width as int, x)
            * crate::predictor::chunk_extent(info.image_height as int, info.chunk_height as int, y) * info.spec_bits_per_pixel() / 8,
{
    let a = crate::predictor::chunk_extent(info.image_width as int, info.chunk_width as int, x);
    let b = crate::predictor::chunk_extent(info.image_height as int, info.chunk_height as int, y);
    let ks = kind_size(k);
    let rs = row_samples(info);
    assert(info.bits_per_sample == 8 * ks);
    assert(info.spec_bits_per_pixel() == rs * info.bits_per_sample);
    assert(a * b * rs * ks == a * b * (rs * (8 * ks)) / 8) by (nonlinear_arith);
}

impl DecodingResult {
    /// A zeroed result sized for the chunk at column `chunk_x` and row `chunk_y`.
    pub fn from_predictor_info(info: PredictorInfo, chunk_x: u32, chunk_y: u32) -> (r: AsyncTiffResult<DecodingResult>)
        requires
            info.wf(),
        ensures
            match result_layout(info, chunk_x, chunk_y) {
                Ok((k, n)) => r matches Ok(res) && res.kind == k && res.bytes@ == zeros(n),
                Err(e) => r == Err::<DecodingResult, AsyncTiffError>(e),
            },
    {
        let width = match info.chunk_width_pixels(chunk_x) {
            Ok(w) => w,
            Err(e) => {
                return Err(e);
            },
        };
        let height = match info.chunk_height_pixels(chunk_y) {
            Ok(h) => h,
            Err(e) => {
                return Err(e);
            },
        };
        let bits = info.bits_per_sample;
        let kind = match info.sample_format {
            SampleFormat::Uint => if bits <= 8 {
                SampleKind::U8
            } else if bits <= 16 {
                SampleKind::U16
            } else if bits <= 32 {
                SampleKind::U32
            } else if bits <= 64 {
                SampleKind::U64
            } else {
                return Err(AsyncTiffError::InternalTIFFError(TiffError::UnsupportedError(TiffUnsupportedError::UnsupportedBitsPerChannel(bits))));
            },
            SampleFormat::Int => if bits <= 8 {
                SampleKind::I8
            } else if bits <= 16 {
                SampleKind::I16
            } else if bits <= 32 {
                SampleKind::I32
            } else if bits <= 64 {
                SampleKind::I64
            } else {
                return Err(AsyncTiffError::InternalTIFFError(TiffError::UnsupportedError(TiffUnsupportedError::UnsupportedBitsPerChannel(bits))));
            },
            SampleFormat::IEEEFP => if bits == 32 {
                SampleKind::F32
            } else if bits == 64 {
                SampleKind::F64
            } else {
                return Err(AsyncTiffError::InternalTIFFError(TiffError::UnsupportedError(TiffUnsupportedError::UnsupportedBitsPerChannel(bits))));
            },
            f => {
                return Err(AsyncTiffError::InternalTIFFError(TiffError::UnsupportedError(TiffUnsupportedError::UnsupportedSampleFormat(f))));
            },
        };
        let size: u64 = match kind {
            SampleKind::U8 | SampleKind::I8 => 1,
            SampleKind::U16 | SampleKind::I16 => 2,
            SampleKind::U32 | SampleKind::I32 | SampleKind::F32 => 4,
            SampleKind::U64 | SampleKind::I64 | SampleKind::F64 => 8,
        };
        let per_pixel: u64 = match info.planar_configuration {
            PlanarConfiguration::Chunky => info.samples_per_pixel as u64,
            PlanarConfiguration::Planar => 1,
        };
        let w = width as u64;
        let h = height as u64;
        proof {
            assert(w * h <= 0xFFFF_FFFF * 0xFFFF_FFFF) by (nonlinear_arith)
                requires w <= 0xFFFF_FFFF, h <= 0xFFFF_FFFF;
        }
        let n = match (w * h).checked_mul(per_pixel) {
            Some(n) => match n.checked_mul(size) {
                Some(n) => n,
                None => {
                    return Err(AsyncTiffError::InternalTIFFError(TiffError::IntSizeError));
                },
            },
            None => {
                proof {
                    assert(w * h * per_pixel * size >= w * h * per_pixel) by (nonlinear_arith)
                        requires size >= 1, w * h * per_pixel >= 0;
                }
                return Err(AsyncTiffError::InternalTIFFError(TiffError::IntSizeError));
            },
        };
        if n > usize::MAX as u64 {
            return Err(AsyncTiffError::InternalTIFFError(TiffError::IntSizeError));
        }
        let bytes = vec![0u8; n as usize];
        proof {
            assert(bytes@ =~= zeros(n as nat));
        }
        Ok(DecodingResult { kind, bytes })
    }

    /// The decoded bytes.
    pub fn as_u8_buf(&self) -> (r: &[u8])
        ensures
            r@ == self.bytes@,
    {
        self.bytes.as_slice()
    }
}

impl Tile {
    /// The column of this chunk.
    pub fn x(&self) -> (r: u32)
        ensures
            r == self.x,
    {
        self.x
    }

    /// The row of this chunk.
    pub fn y(&self) -> (r: u32)
        ensures
            r == self.y,
    {
        self.y
    }

    /// The compressed bytes.
    pub fn compressed_bytes(&self) -> (r: &[u8])
        ensures
            r@ == self.compressed_bytes@,
    {
        self.compressed_bytes.as_slice()
    }

    /// The compression method.
    pub fn compression_method(&self) -> (r: CompressionMethod)
        ensures
            r == self.compression_method,
    {
        self.compression_method
    }

    /// The photometric interpretation.
    pub fn photometric_interpretation(&self) -> (r: PhotometricInterpretation)
        ensures
            r == self.photometric_interpretation,
    {
        self.photometric_interpretation
    }

    /// The JPEG tables of the IFD, if any.
    pub fn jpeg_tables(&self) -> (r: Option<&[u8]>)
        ensures
            r matches Some(t) ==> self.jpeg_tables matches Some(v) && t@ == v@,
            r is None <==> self.jpeg_tables is None,
    {
        match &self.jpeg_tables {
            Some(t) => Some(t.as_slice()),
            None => None,
        }
    }

    /// Decodes this chunk into `result_buffer`: runs the codec of its compression method,
    /// then reverts its predictor and puts its samples in the machine's byte order.
    pub fn decode_into(&self, decoder_registry: &DecoderRegistry, result_buffer: &mut [u8]) -> (r: AsyncTiffResult<()>)
        requires
            self.predictor_info.wf(),
        ensures
            final(result_buffer)@.len() == old(result_buffer)@.len(),
            decode_error(self, decoder_registry.spec_get(self.compression_method), old(result_buffer)@.len()) is None
                <==> r is Ok,
            r matches Err(e) ==> decode_error(self, decoder_registry.spec_get(self.compression_method), old(result_buffer)@.len())
                == Some(e),
            decoder_registry.spec_get(self.compression_method) is None ==> final(result_buffer)@ == old(result_buffer)@,
            r is Ok ==> (decoder_registry.spec_get(self.compression_method) matches Some(d) && match self.predictor {
                Predictor::NoPredictor => exists|decoded: Seq<u8>, host: Endianness| codec_output(d, self.compressed_bytes@, old(result_buffer)@, decoded)
                    && #[trigger] endian_fixed(decoded, final(result_buffer)@, self.predictor_info.endianness, host, self.predictor_info.bits_per_sample),
                Predictor::Horizontal => exists|decoded: Seq<u8>, fixed: Seq<u8>, host: Endianness| codec_output(d, self.compressed_bytes@, old(result_buffer)@, decoded)
                    && #[trigger] endian_fixed(decoded, fixed, self.predictor_info.endianness, host, self.predictor_info.bits_per_sample)
                    && rows_hdiff_reverted(
                    fixed,
                    final(result_buffer)@,
                    row_stride(self.predictor_info, self.x as int),
                    depth_width(self.predictor_info.bits_per_sample),
                    self.predictor_info.samples_per_pixel as int,
                    host,
                ),
                Predictor::FloatingPoint => exists|decoded: Seq<u8>, reverted: Seq<u8>, host: Endianness| codec_output(d, self.compressed_bytes@, zeros(old(result_buffer)@.len()), decoded)
                    && #[trigger] float_rows_reverted(
                    decoded,
                    reverted,
                    final(result_buffer)@,
                    float_input_stride(self.predictor_info),
                    row_stride(self.predictor_info, self.x as int),
                    self.predictor_info.bits_per_sample as int / 8,
                    self.predictor_info.samples_per_pixel as int,
                    host,
                ),
            }),
    {
        let decoder = match decoder_registry.get(self.compression_method) {
            Some(d) => d,
            None => {
                return Err(AsyncTiffError::InternalTIFFError(TiffError::UnsupportedError(
                    TiffUnsupportedError::UnsupportedCompressionMethod(self.compression_method),
                )));
            },
        };
        self.decode_with(decoder, self.compressed_bytes.as_slice(), result_buffer)
    }

    /// Finishes decoding this chunk from bytes that a codec of the caller's own decompressed:
    /// checks that they fill `result_buffer`, then reverts the predictor and puts the samples
    /// in the machine's byte order.
    pub fn decode_decompressed(&self, decompressed: &[u8], result_buffer: &mut [u8]) -> (r: AsyncTiffResult<()>)
        requires
            self.predictor_info.wf(),
        ensures
            final(result_buffer)@.len() == old(result_buffer)@.len(),
            step_error(self, Decoder::Uncompressed(UncompressedDecoder), decompressed@, old(result_buffer)@.len()) is None <==> r is Ok,
            r matches Err(e) ==> step_error(self, Decoder::Uncompressed(UncompressedDecoder), decompressed@, old(result_buffer)@.len())
                == Some(e),
            r is Ok ==> (match self.predictor {
                Predictor::NoPredictor => exists|decoded: Seq<u8>, host: Endianness| codec_output(Decoder::Uncompressed(UncompressedDecoder), decompressed@, old(result_buffer)@, decoded)
                    && #[trigger] endian_fixed(decoded, final(result_buffer)@, self.predictor_info.endianness, host, self.predictor_info.bits_per_sample),
                Predictor::Horizontal => exists|decoded: Seq<u8>, fixed: Seq<u8>, host: Endianness| codec_output(Decoder::Uncompressed(UncompressedDecoder), decompressed@, old(result_buffer)@, decoded)
                    && #[trigger] endian_fixed(decoded, fixed, self.predictor_info.endianness, host, self.predictor_info.bits_per_sample)
                    && rows_hdiff_reverted(
                    fixed,
                    final(result_buffer)@,
                    row_stride(self.predictor_info, self.x as int),
                    depth_width(self.predictor_info.bits_per_sample),
                    self.predictor_info.samples_per_pixel as int,
                    host,
                ),
                Predictor::FloatingPoint => exists|decoded: Seq<u8>, reverted: Seq<u8>, host: Endianness| codec_output(Decoder::Uncompressed(UncompressedDecoder), decompressed@, zeros(old(result_buffer)@.len()), decoded)
                    && #[trigger] float_rows_reverted(
                    decoded,
                    reverted,
                    final(result_buffer)@,
                    float_input_stride(self.predictor_info),
                    row_stride(self.predictor_info, self.x as int),
                    self.predictor_info.bits_per_sample as int / 8,
                    self.predictor_info.samples_per_pixel as int,
                    host,
                ),
            }),
    {
        self.decode_with(Decoder::Uncompressed(UncompressedDecoder), decompressed, result_buffer)
    }

    /// Runs codec `decoder` on `input` into `result_buffer`, then reverts the predictor.
    fn decode_with(&self, decoder: Decoder, input: &[u8], result_buffer: &mut [u8]) -> (r: AsyncTiffResult<()>)
        requires
            self.predictor_info.wf(),
        ensures
            final(result_buffer)@.len() == old(result_buffer)@.len(),
            step_error(self, decoder, input@, old(result_buffer)@.len()) is None <==> r is Ok,
            r matches Err(e) ==> step_error(self, decoder, input@, old(result_buffer)@.len()) == Some(e),
            r is Ok ==> (match self.predictor {
                Predictor::NoPredictor => exists|decoded: Seq<u8>, host: Endianness| codec_output(decoder, input@, old(result_buffer)@, decoded)
                    && #[trigger] endian_fixed(decoded, final(result_buffer)@, self.predictor_info.endianness, host, self.predictor_info.bits_per_sample),
                Predictor::Horizontal => exists|decoded: Seq<u8>, fixed: Seq<u8>, host: Endianness| codec_output(decoder, input@, old(result_buffer)@, decoded)
                    && #[trigger] endian_fixed(decoded, fixed, self.predictor_info.endianness, host, self.predictor_info.bits_per_sample)
                    && rows_hdiff_reverted(
                    fixed,
                    final(result_buffer)@,
                    row_stride(self.predictor_info, self.x as int),
                    depth_width(self.predictor_info.bits_per_sample),
                    self.predictor_info.samples_per_pixel as int,
                    host,
                ),
                Predictor::FloatingPoint => exists|decoded: Seq<u8>, reverted: Seq<u8>, host: Endianness| codec_output(decoder, input@, zeros(old(result_buffer)@.len()), decoded)
                    && #[trigger] float_rows_reverted(
                    decoded,
                    reverted,
                    final(result_buffer)@,
                    float_input_stride(self.predictor_info),
                    row_stride(self.predictor_info, self.x as int),
                    self.predictor_info.bits_per_sample as int / 8,
                    self.predictor_info.samples_per_pixel as int,
                    host,
                ),
            }),
    {
        match self.predictor {
            Predictor::NoPredictor => {
                match run_codec(decoder, input, result_buffer) {
                    Ok(()) => {},
                    Err(e) => {
                        return Err(e);
                    },
                }
                let ghost decoded = result_buffer@;
                let host = native_endianness();
                fix_endianness_to(result_buffer, self.predictor_info.endianness, host, self.predictor_info.bits_per_sample);
                proof {
                    assert(endian_fixed(decoded, result_buffer@, self.predictor_info.endianness, host, self.predictor_info.bits_per_sample));
                }
                Ok(())
            },
            Predictor::Horizontal => {
                match run_codec(decoder, input, result_buffer) {
                    Ok(()) => {},
                    Err(e) => {
                        return Err(e);
                    },
                }
                let ghost decoded = result_buffer@;
                let r = unpredict_hdiff(result_buffer, &self.predictor_info, self.x);
                proof {
                    if r is Ok {
                        let (fixed, host) = choose|fixed: Seq<u8>, host: Endianness| endian_fixed(decoded, fixed, self.predictor_info.endianness, host, self.predictor_info.bits_per_sample)
                            && #[trigger] rows_hdiff_reverted(
                            fixed,
                            result_buffer@,
                            row_stride(self.predictor_info, self.x as int),
                            depth_width(self.predictor_info.bits_per_sample),
                            self.predictor_info.samples_per_pixel as int,
                            host,
                        );
                        assert(rows_hdiff_reverted(
                            fixed,
                            result_buffer@,
                            row_stride(self.predictor_info, self.x as int),
                            depth_width(self.predictor_info.bits_per_sample),
                            self.predictor_info.samples_per_pixel as int,
                            host,
                        ));
                    }
                }
                r
            },
            Predictor::FloatingPoint => {
                let len = result_buffer.len();
                let mut temp: Vec<u8> = vec![0u8; len];
                proof {
                    assert(temp@ =~= zeros(len as nat));
                }
                match run_codec(decoder, input, temp.as_mut_slice()) {
                    Ok(()) => {},
                    Err(e) => {
                        return Err(e);
                    },
                }
                let ghost decoded = temp@;
                let r = unpredict_float(temp.as_mut_slice(), result_buffer, &self.predictor_info, self.x);
                proof {
                    if r is Ok {
                        let host = choose|host: Endianness| #[trigger] float_rows_reverted(
                            decoded,
                            temp@,
                            result_buffer@,
                            float_input_stride(self.predictor_info),
                            row_stride(self.predictor_info, self.x as int),
                            self.predictor_info.bits_per_sample as int / 8,
                            self.predictor_info.samples_per_pixel as int,
                            host,
                        );
                        assert(float_rows_reverted(
                            decoded,
                            temp@,
                            result_buffer@,
                            float_input_stride(self.predictor_info),
                            row_stride(self.predictor_info, self.x as int),
                            self.predictor_info.bits_per_sample as int / 8,
                            self.predictor_info.samples_per_pixel as int,
                            host,
                        ));
                    }
                }
                r
            },
        }
    }

    /// Decodes this chunk into a new buffer sized for it.
    pub fn decode(&self, decoder_registry: &DecoderRegistry) -> (r: AsyncTiffResult<DecodingResult>)
        requires
            self.predictor_info.wf(),
        ensures
            match result_layout(self.predictor_info, self.x, self.y) {
                Err(e) => r == Err::<DecodingResult, AsyncTiffError>(e),
                Ok((k, n)) => match decode_error(self, decoder_registry.spec_get(self.compression_method), n) {
                    Some(e) => r == Err::<DecodingResult, AsyncTiffError>(e),
                    None => r matches Ok(res) && res.kind == k && res.bytes@.len() == n,
                },
            },
    {
        let mut res = match DecodingResult::from_predictor_info(self.predictor_info, self.x, self.y) {
            Ok(res) => res,
            Err(e) => {
                return Err(e);
            },
        };
        match self.decode_into(decoder_registry, res.bytes.as_mut_slice()) {
            Ok(()) => Ok(res),
            Err(e) => Err(e),
        }
    }
}

} // verus!
