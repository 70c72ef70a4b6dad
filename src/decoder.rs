//! Codecs for the compression methods of TIFF chunks, and the registry that maps a method to
//! its codec.
use vstd::prelude::*;

use crate::error::{format_err, AsyncTiffError, AsyncTiffResult, TiffError, TiffFormatError, TiffUnsupportedError};
use crate::tags::{CompressionMethod, PhotometricInterpretation};

verus! {

/// The bytes that a zlib decoder yields for `input` before it stops.
pub uninterp spec fn zlib_decoded(input: Seq<u8>) -> Seq<u8>;

/// A zlib decoder for `input` yields at least `n` bytes before it stops on the end of the
/// stream or on an error.
pub uninterp spec fn zlib_fills(input: Seq<u8>, n: nat) -> bool;

/// TIFF's LZW decoder decodes `input` to its end code without an error.
pub uninterp spec fn lzw_ok(input: Seq<u8>) -> bool;

/// The bytes that TIFF's LZW decoder (most significant bit first, 8-bit codes to start,
/// early size switch) yields for `input` before it stops.
pub uninterp spec fn lzw_decoded(input: Seq<u8>) -> Seq<u8>;

/// Relies on `flate2::read::ZlibDecoder` and `Read::read_exact`: on success `out` holds the
/// first bytes of the decompressed stream; it fails where the stream is malformed or ends
/// before `out` is full.
#[verifier::external_body]
fn zlib_read_exact(input: &[u8], out: &mut [u8]) -> (r: bool)
    ensures
        final(out)@.len() == old(out)@.len(),
        r == zlib_fills(input@, old(out)@.len()),
        r ==> old(out)@.len() <= zlib_decoded(input@).len() && final(out)@ == zlib_decoded(input@).subrange(
            0,
            old(out)@.len() as int,
        ),
{
    let mut decoder = flate2::read::ZlibDecoder::new(input);
    std::io::Read::read_exact(&mut decoder, out).is_ok()
}

/// Relies on `weezl::decode::Decoder::with_tiff_size_switch(Msb, 8)` and `decode`: on success
/// the whole decoded stream, up to its end code; it fails on a malformed stream.
#[verifier::external_body]
fn lzw_decode(input: &[u8]) -> (r: Option<Vec<u8>>)
    ensures
        r is Some <==> lzw_ok(input@),
        r matches Some(v) ==> v@ == lzw_decoded(input@),
{
    weezl::decode::Decoder::with_tiff_size_switch(weezl::BitOrder::Msb, 8).decode(input).ok()
}

/// Copies uncompressed chunk bytes.
#[derive(Debug, Clone, Copy)]
pub struct UncompressedDecoder;

/// Inflates zlib (Deflate) chunk bytes.
#[derive(Debug, Clone, Copy)]
pub struct DeflateDecoder;

/// Decodes TIFF-flavoured LZW chunk bytes.
#[derive(Debug, Clone, Copy)]
pub struct LZWDecoder;

/// Prepares JPEG chunk bytes for a baseline JPEG decoder.
#[derive(Debug, Clone, Copy)]
pub struct JPEGDecoder;

impl UncompressedDecoder {
    /// Copies `compressed` into `result`; their lengths must match.
    pub fn decode_tile(&self, compressed: &[u8], result: &mut [u8]) -> (r: AsyncTiffResult<()>)
        ensures
            r is Ok <==> compressed@.len() == old(result)@.len(),
            r is Ok ==> final(result)@ == compressed@,
            r matches Err(e) ==> e == format_err(
                TiffFormatError::UnexpectedCompressedData(compressed@.len() as u64, old(result)@.len() as u64),
            ) && final(result)@ == old(result)@,
    {
        if compressed.len() != result.len() {
            return Err(AsyncTiffError::InternalTIFFError(TiffError::FormatError(
                TiffFormatError::UnexpectedCompressedData(compressed.len() as u64, result.len() as u64),
            )));
        }
        let mut i: usize = 0;
        while i < compressed.len()
            invariant
                i <= compressed@.len(),
                result@.len() == compressed@.len(),
                forall|j: int| 0 <= j < i ==> result@[j] == compressed@[j],
            decreases compressed@.len() - i,
        {
            result[i] = compressed[i];
            i += 1;
        }
        proof {
            assert(result@ =~= compressed@);
        }
        Ok(())
    }
}

impl DeflateDecoder {
    /// Inflates `compressed` into `result`, which it must fill.
    pub fn decode_tile(&self, compressed: &[u8], result: &mut [u8]) -> (r: AsyncTiffResult<()>)
        ensures
            final(result)@.len() == old(result)@.len(),
            r is Ok <==> zlib_fills(compressed@, old(result)@.len()),
            r is Ok ==> final(result)@ == zlib_decoded(compressed@).subrange(0, old(result)@.len() as int),
            r matches Err(e) ==> e == AsyncTiffError::IOError,
    {
        if zlib_read_exact(compressed, result) {
            Ok(())
        } else {
            Err(AsyncTiffError::IOError)
        }
    }
}

/// `out` is `old_out` with its first bytes replaced by the LZW decoding of `input`: as many as
/// `old_out` holds or as the stream yields; the bytes past the decoded stream keep their value.
pub open spec fn lzw_filled(input: Seq<u8>, old_out: Seq<u8>, out: Seq<u8>) -> bool {
    let d = lzw_decoded(input);
    let k = if d.len() < old_out.len() { d.len() as int } else { old_out.len() as int };
    &&& out.len() == old_out.len()
    &&& out.subrange(0, k) == d.subrange(0, k)
    &&& out.subrange(k, out.len() as int) == old_out.subrange(k, old_out.len() as int)
}

impl LZWDecoder {
    /// Decodes `compressed` into the start of `result`: as many decoded bytes as it holds or as
    /// the stream yields.
    pub fn decode_tile(&self, compressed: &[u8], result: &mut [u8]) -> (r: AsyncTiffResult<()>)
        ensures
            final(result)@.len() == old(result)@.len(),
            r is Ok <==> lzw_ok(compressed@),
            r is Ok ==> lzw_filled(compressed@, old(result)@, final(result)@),
            r is Err ==> final(result)@ == old(result)@,
            r matches Err(e) ==> e == AsyncTiffError::External,
    {
        let decoded = match lzw_decode(compressed) {
            Some(d) => d,
            None => {
                return Err(AsyncTiffError::External);
            },
        };
        let n = if decoded.len() < result.len() { decoded.len() } else { result.len() };
        let ghost before = result@;
        let mut i: usize = 0;
        while i < n
            invariant
                i <= n,
                n <= decoded@.len(),
                n <= result@.len(),
                result@.len() == before.len(),
                forall|j: int| 0 <= j < i ==> result@[j] == decoded@[j],
                forall|j: int| i <= j < result@.len() ==> result@[j] == before[j],
            decreases n - i,
        {
            result[i] = decoded[i];
            i += 1;
        }
        proof {
            assert(result@.subrange(0, n as int) =~= decoded@.subrange(0, n as int));
            assert(result@.subrange(n as int, before.len() as int) =~= before.subrange(n as int, before.len() as int));
        }
        Ok(())
    }
}

/// The JPEG stream of a chunk: where the IFD has JPEG tables of at least two bytes, the tables
/// without their last two bytes (their end-of-image marker) and then the chunk without its
/// first two (its start-of-image marker); otherwise the chunk itself.
pub open spec fn jpeg_stream(tables: Option<Seq<u8>>, tile: Seq<u8>) -> Seq<u8> {
    match tables {
        Some(t) => if t.len() >= 2 {
            t.subrange(0, t.len() - 2) + if tile.len() >= 2 { tile.subrange(2, tile.len() as int) } else { Seq::empty() }
        } else {
            tile
        },
        None => tile,
    }
}

/// Without JPEG tables, or with empty ones, the JPEG stream of a chunk is the chunk itself.
pub proof fn lemma_jpeg_tables_absent_or_empty(tile: Seq<u8>)
    ensures
        jpeg_stream(None, tile) == tile,
        jpeg_stream(Some(Seq::empty()), tile) == tile,
{
}

/// Color transforms of a baseline JPEG decoder.
#[derive(Debug, Clone, Copy, PartialEq, Eq, Structural)]
pub enum ColorTransform {
    /// No transform.
    NoTransform,
    /// Grayscale.
    Grayscale,
    /// RGB.
    RGB,
    /// YCbCr.
    YCbCr,
    /// CMYK.
    CMYK,
}

/// The color transform for a photometric interpretation, if JPEG chunks of it can be decoded.
pub open spec fn color_transform_of(p: PhotometricInterpretation) -> Option<ColorTransform> {
    match p {
        PhotometricInterpretation::RGB => Some(ColorTransform::RGB),
        PhotometricInterpretation::WhiteIsZero | PhotometricInterpretation::BlackIsZero
        | PhotometricInterpretation::TransparencyMask => Some(ColorTransform::NoTransform),
        PhotometricInterpretation::CMYK => Some(ColorTransform::CMYK),
        PhotometricInterpretation::YCbCr => Some(ColorTransform::YCbCr),
        _ => None,
    }
}

impl JPEGDecoder {
    /// The JPEG stream to decode for a chunk: the chunk spliced after the JPEG tables.
    pub fn jpeg_input(&self, compressed: &[u8], jpeg_tables: Option<&[u8]>) -> (r: Vec<u8>)
        ensures
            r@ == jpeg_stream(
                match jpeg_tables {
                    Some(t) => Some(t@),
                    None => None,
                },
                compressed@,
            ),
    {
        let mut out: Vec<u8> = Vec::new();
        let mut start: usize = 0;
        match jpeg_tables {
            Some(t) => {
                if t.len() >= 2 {
                    let mut i: usize = 0;
                    while i < t.len() - 2
                        invariant
                            t@.len() >= 2,
                            i <= t@.len() - 2,
                            out@ == t@.subrange(0, i as int),
                        decreases t@.len() - 2 - i,
                    {
                        out.push(t[i]);
                        i += 1;
                        proof {
                            assert(out@ =~= t@.subrange(0, i as int));
                        }
                    }
                    start = if compressed.len() >= 2 { 2 } else { compressed.len() };
                }
            },
            None => {},
        }
        let ghost prefix = out@;
        let mut i = start;
        while i < compressed.len()
            invariant
                start <= i <= compressed@.len(),
                out@ == prefix + compressed@.subrange(start as int, i as int),
            decreases compressed@.len() - i,
        {
            out.push(compressed[i]);
            i += 1;
            proof {
                assert(out@ =~= prefix + compressed@.subrange(start as int, i as int));
            }
        }
        proof {
            assert(compressed@.subrange(0, compressed@.len() as int) =~= compressed@);
            assert(out@ =~= jpeg_stream(
                match jpeg_tables {
                    Some(t) => Some(t@),
                    None => None,
                },
                compressed@,
            ));
        }
        out
    }

    /// The color transform to decode JPEG chunks of a photometric interpretation with.
    pub fn color_transform(&self, photometric_interpretation: PhotometricInterpretation) -> (r: AsyncTiffResult<ColorTransform>)
        ensures
            match color_transform_of(photometric_interpretation) {
                Some(c) => r == Ok::<ColorTransform, AsyncTiffError>(c),
                None => r == Err::<ColorTransform, AsyncTiffError>(AsyncTiffError::InternalTIFFError(
                    TiffError::UnsupportedError(TiffUnsupportedError::UnsupportedInterpretation(photometric_interpretation)),
                )),
            },
    {
        match photometric_interpretation {
            PhotometricInterpretation::RGB => Ok(ColorTransform::RGB),
            PhotometricInterpretation::WhiteIsZero | PhotometricInterpretation::BlackIsZero
            | PhotometricInterpretation::TransparencyMask => Ok(ColorTransform::NoTransform),
            PhotometricInterpretation::CMYK => Ok(ColorTransform::CMYK),
            PhotometricInterpretation::YCbCr => Ok(ColorTransform::YCbCr),
            _ => Err(AsyncTiffError::InternalTIFFError(TiffError::UnsupportedError(
                TiffUnsupportedError::UnsupportedInterpretation(photometric_interpretation),
            ))),
        }
    }
}

/// A codec that the library runs itself.
#[derive(Debug, Clone, Copy)]
pub enum Decoder {
    /// Uncompressed data.
    Uncompressed(UncompressedDecoder),
    /// Deflate.
    Deflate(DeflateDecoder),
    /// LZW.
    LZW(LZWDecoder),
}

/// The codecs by compression method. A method added again replaces its codec.
#[derive(Debug)]
pub struct DecoderRegistry {
    entries: Vec<(CompressionMethod, Decoder)>,
}

impl DecoderRegistry {
    /// The methods and codecs, in the order they were added.
    pub closed spec fn spec_entries(&self) -> Seq<(CompressionMethod, Decoder)> {
        self.entries@
    }

    /// The codec of `m`: the last one added for it.
    pub open spec fn spec_get(&self, m: CompressionMethod) -> Option<Decoder> {
        last_codec(self.spec_entries(), self.spec_entries().len() as int, m)
    }

    /// A registry with no codec.
    pub fn new() -> (r: DecoderRegistry)
        ensures
            r.spec_entries().len() == 0,
    {
        DecoderRegistry { entries: Vec::new() }
    }

    /// The registry of the built-in codecs: uncompressed data, Deflate (both codes) and LZW.
    pub fn default() -> (r: DecoderRegistry)
        ensures
            r.spec_get(CompressionMethod::Uncompressed) == Some(Decoder::Uncompressed(UncompressedDecoder)),
            r.spec_get(CompressionMethod::Deflate) == Some(Decoder::Deflate(DeflateDecoder)),
            r.spec_get(CompressionMethod::OldDeflate) == Some(Decoder::Deflate(DeflateDecoder)),
            r.spec_get(CompressionMethod::LZW) == Some(Decoder::LZW(LZWDecoder)),
            forall|m: CompressionMethod|
                m != CompressionMethod::Uncompressed && m != CompressionMethod::Deflate && m != CompressionMethod::OldDeflate
                    && m != CompressionMethod::LZW ==> #[trigger] r.spec_get(m) is None,
    {
        let mut r = DecoderRegistry::new();
        r.add(CompressionMethod::Uncompressed, Decoder::Uncompressed(UncompressedDecoder));
        r.add(CompressionMethod::Deflate, Decoder::Deflate(DeflateDecoder));
        r.add(CompressionMethod::OldDeflate, Decoder::Deflate(DeflateDecoder));
        r.add(CompressionMethod::LZW, Decoder::LZW(LZWDecoder));
        r
    }

    /// Registers `decoder` for `method`.
    pub fn add(&mut self, method: CompressionMethod, decoder: Decoder)
        ensures
            final(self).spec_entries() == old(self).spec_entries().push((method, decoder)),
            final(self).spec_get(method) == Some(decoder),
            forall|m: CompressionMethod| m != method ==> final(self).spec_get(m) == old(self).spec_get(m),
    {
        let ghost before = self.entries@;
        self.entries.push((method, decoder));
        proof {
            assert forall|m: CompressionMethod| m != method implies self.spec_get(m) == old(self).spec_get(m) by {
                lemma_last_codec_prefix(before, self.entries@, before.len() as int, m);
            }
        }
    }

    /// The codec of `method`, if there is one.
    pub fn get(&self, method: CompressionMethod) -> (r: Option<Decoder>)
        ensures
            r == self.spec_get(method),
    {
        let mut i = self.entries.len();
        while i > 0
            invariant
                i <= self.entries@.len(),
                last_codec(self.entries@, self.entries@.len() as int, method) == last_codec(self.entries@, i as int, method),
            decreases i,
        {
            if self.entries[i - 1].0 == method {
                return Some(self.entries[i - 1].1);
            }
            i -= 1;
        }
        None
    }
}

proof fn lemma_last_codec_prefix(s: Seq<(CompressionMethod, Decoder)>, t: Seq<(CompressionMethod, Decoder)>, n: int, m: CompressionMethod)
    requires
        0 <= n <= s.len(),
        n <= t.len(),
        forall|i: int| 0 <= i < n ==> s[i] == t[i],
    ensures
        last_codec(s, n, m) == last_codec(t, n, m),
    decreases n,
{
    if n > 0 {
        lemma_last_codec_prefix(s, t, n - 1, m);
    }
}

/// The codec of the last of the first `n` entries with method `m`.
pub open spec fn last_codec(s: Seq<(CompressionMethod, Decoder)>, n: int, m: CompressionMethod) -> Option<Decoder>
    decreases n,
{
    if n <= 0 {
        None
    } else if s[n - 1].0 == m {
        Some(s[n - 1].1)
    } else {
        last_codec(s, n - 1, m)
    }
}

} // verus!
