//! Reverting the predictors that TIFF applies before compression, and fixing byte order.
//!
//! Decoded chunks are turned into the machine's byte order. The functions that take a
//! `host` byte order do so for the order given; the others ask the machine for its own.
use vstd::prelude::*;

use crate::error::{
    format_err, unsupported_err, AsyncTiffError, AsyncTiffResult, TiffError, TiffFormatError,
    TiffUnsupportedError,
};
use crate::ifd::ImageFileDirectory;
use crate::tags::{PlanarConfiguration, SampleFormat, Tag};
use vstd::arithmetic::div_mod::{lemma_add_mod_noop, lemma_fundamental_div_mod_converse, lemma_small_mod};

use crate::endian::{slice_to_vec, u16_at, u32_at, u64_at, Endianness};
use crate::hdiff::{
    rev_hpredict_w1, rev_hpredict_w2, rev_hpredict_w4, rev_hpredict_w8, reverse_groups_w2,
    reverse_groups_w4, reverse_groups_w8, unshuffle_w2, unshuffle_w4, unshuffle_w8,
};

verus! {

/// The unsigned integer of `w` bytes (1, 2, 4 or 8) at `s[i..]` in byte order `h`.
pub open spec fn elem_at(s: Seq<u8>, i: int, w: int, h: Endianness) -> int {
    if w == 1 {
        s[i] as int
    } else if w == 2 {
        u16_at(s, i, h)
    } else if w == 4 {
        u32_at(s, i, h)
    } else {
        u64_at(s, i, h)
    }
}

/// The `w`-byte elements of `s`, in order; a partial element at the end is left out.
pub open spec fn elems(s: Seq<u8>, w: int, h: Endianness) -> Seq<int> {
    Seq::new((s.len() as int / w) as nat, |k: int| elem_at(s, k * w, w, h))
}

/// The number of values of a `w`-byte unsigned integer.
pub open spec fn modulus(w: int) -> int {
    if w == 1 {
        0x100
    } else if w == 2 {
        0x1_0000
    } else if w == 4 {
        0x1_0000_0000
    } else {
        0x1_0000_0000_0000_0000
    }
}

/// Element `j` after reverting horizontal differencing with stride `st`: the sum, modulo
/// `m`, of the elements `j`, `j - st`, `j - 2 st`, ...
pub open spec fn hp_at(e: Seq<int>, j: int, st: int, m: int) -> int
    decreases j,
{
    if st <= 0 || j < st {
        e[j]
    } else {
        (e[j] + hp_at(e, j - st, st, m)) % m
    }
}

/// `e` after reverting horizontal differencing with stride `st` modulo `m`.
pub open spec fn rev_hdiff(e: Seq<int>, st: int, m: int) -> Seq<int> {
    Seq::new(e.len(), |j: int| hp_at(e, j, st, m))
}

/// `b` is `a` with the bytes of each whole `w`-byte group reversed.
pub open spec fn groups_reversed(a: Seq<u8>, b: Seq<u8>, w: int) -> bool {
    &&& b.len() == a.len()
    &&& forall|g: int, k: int| 0 <= g < a.len() as int / w && 0 <= k < w ==> #[trigger] b[g * w + k] == a[g * w + w - 1 - k]
    &&& forall|p: int| (a.len() as int / w) * w <= p < a.len() ==> #[trigger] b[p] == a[p]
}

/// The plane of byte `k` of a `w`-byte value written in byte order `h`: planes run from the
/// most significant byte to the least.
pub open spec fn plane(k: int, w: int, h: Endianness) -> int {
    if h == Endianness::BigEndian { k } else { w - 1 - k }
}

/// `out` is `old_out` with each whole `w`-byte value gathered from the `w` byte planes of
/// `input`, written in byte order `h`.
pub open spec fn unshuffled(input: Seq<u8>, old_out: Seq<u8>, out: Seq<u8>, w: int, h: Endianness) -> bool {
    &&& out.len() == old_out.len()
    &&& forall|g: int, k: int| 0 <= g < out.len() as int / w && 0 <= k < w ==> #[trigger] out[g * w + k] == input[plane(k, w, h) * (input.len() as int / w) + g]
    &&& forall|p: int| (out.len() as int / w) * w <= p < out.len() ==> #[trigger] out[p] == old_out[p]
}

/// The width in bytes of the elements of a bit depth.
pub open spec fn depth_width(bit_depth: u16) -> int {
    if bit_depth <= 8 {
        1
    } else if bit_depth <= 16 {
        2
    } else if bit_depth <= 32 {
        4
    } else {
        8
    }
}

/// `b` is `a`, bytes of a file of byte order `byte_order`, put in byte order `host`: each
/// element of the bit depth reversed where the two orders differ.
pub open spec fn endian_fixed(a: Seq<u8>, b: Seq<u8>, byte_order: Endianness, host: Endianness, bit_depth: u16) -> bool {
    if byte_order == host || depth_width(bit_depth) == 1 {
        b == a
    } else {
        groups_reversed(a, b, depth_width(bit_depth))
    }
}

/// Relies on `u16::from_ne_bytes`: the bytes `[1, 0]` read in the machine's byte order are
/// 1 or 256.
#[verifier::external_body]
fn native_probe() -> (r: u16)
    ensures
        r == 1 || r == 256,
{
    u16::from_ne_bytes([1, 0])
}

/// The byte order of the machine.
pub fn native_endianness() -> Endianness {
    if native_probe() == 1 {
        Endianness::LittleEndian
    } else {
        Endianness::BigEndian
    }
}

/// Puts the elements of `buffer`, of a file of byte order `byte_order`, in byte order
/// `host`.
pub fn fix_endianness_to(buffer: &mut [u8], byte_order: Endianness, host: Endianness, bit_depth: u16)
    ensures
        final(buffer)@.len() == old(buffer)@.len(),
        endian_fixed(old(buffer)@, final(buffer)@, byte_order, host, bit_depth),
{
    if byte_order == host || bit_depth <= 8 {
        return;
    }
    if bit_depth <= 16 {
        reverse_groups_w2(buffer);
    } else if bit_depth <= 32 {
        reverse_groups_w4(buffer);
    } else {
        reverse_groups_w8(buffer);
    }
}

/// Puts the elements of `buffer`, of a file of byte order `byte_order`, in the machine's
/// byte order. Nothing changes where the two are the same.
pub fn fix_endianness(buffer: &mut [u8], byte_order: Endianness, bit_depth: u16)
    ensures
        exists|host: Endianness| endian_fixed(old(buffer)@, final(buffer)@, byte_order, host, bit_depth),
{
    let host = native_endianness();
    fix_endianness_to(buffer, byte_order, host, bit_depth);
}

/// Reverts horizontal differencing on the elements of bit depth `bit_depth`, stored in byte
/// order `host`, with stride `samples`.
pub fn rev_hpredict_nsamp_in(buf: &mut [u8], bit_depth: u16, samples: usize, host: Endianness)
    requires
        bit_depth <= 64,
        samples >= 1,
        old(buf)@.len() as int % depth_width(bit_depth) == 0,
    ensures
        final(buf)@.len() == old(buf)@.len(),
        elems(final(buf)@, depth_width(bit_depth), host) == rev_hdiff(
            elems(old(buf)@, depth_width(bit_depth), host),
            samples as int,
            modulus(depth_width(bit_depth)),
        ),
{
    if bit_depth <= 8 {
        rev_hpredict_w1(buf, samples, host);
    } else if bit_depth <= 16 {
        rev_hpredict_w2(buf, samples, host);
    } else if bit_depth <= 32 {
        rev_hpredict_w4(buf, samples, host);
    } else {
        rev_hpredict_w8(buf, samples, host);
    }
}

/// Reverts horizontal differencing on the elements of bit depth `bit_depth`, stored in the
/// machine's byte order, with stride `samples`. To be used after [`fix_endianness`].
pub fn rev_hpredict_nsamp(buf: &mut [u8], bit_depth: u16, samples: usize)
    requires
        bit_depth <= 64,
        samples >= 1,
        old(buf)@.len() as int % depth_width(bit_depth) == 0,
    ensures
        final(buf)@.len() == old(buf)@.len(),
        exists|host: Endianness| elems(final(buf)@, depth_width(bit_depth), host) == rev_hdiff(
            elems(#[trigger] old(buf)@, depth_width(bit_depth), host),
            samples as int,
            modulus(depth_width(bit_depth)),
        ),
{
    let host = native_endianness();
    rev_hpredict_nsamp_in(buf, bit_depth, samples, host);
}

/// Reverts the floating-point predictor on one row of `w`-byte values: reverts bytewise
/// differencing of `input` with stride `samples`, then gathers each value from the byte
/// planes of `input` into `output`, in byte order `host`.
pub fn rev_predict_float_in(input: &mut [u8], output: &mut [u8], samples: usize, w: usize, host: Endianness)
    requires
        w == 2 || w == 4 || w == 8,
        samples >= 1,
        old(output)@.len() / (w as nat) <= old(input)@.len() / (w as nat),
    ensures
        final(input)@.len() == old(input)@.len(),
        elems(final(input)@, 1, host) == rev_hdiff(elems(old(input)@, 1, host), samples as int, 0x100),
        unshuffled(final(input)@, old(output)@, final(output)@, w as int, host),
{
    rev_hpredict_w1(input, samples, host);
    if w == 2 {
        unshuffle_w2(input, output, host);
    } else if w == 4 {
        unshuffle_w4(input, output, host);
    } else {
        unshuffle_w8(input, output, host);
    }
}

/// Reverts the floating-point predictor on one row of 16-bit values, into the machine's byte
/// order.
pub fn rev_predict_f16(input: &mut [u8], output: &mut [u8], samples: usize)
    requires
        samples >= 1,
        old(output)@.len() / 2 <= old(input)@.len() / 2,
    ensures
        final(input)@.len() == old(input)@.len(),
        exists|host: Endianness| #[trigger] elems(final(input)@, 1, host) == rev_hdiff(elems(old(input)@, 1, host), samples as int, 0x100)
            && unshuffled(final(input)@, old(output)@, final(output)@, 2, host),
{
    rev_predict_float_in(input, output, samples, 2, native_endianness());
}

/// Reverts the floating-point predictor on one row of 32-bit values, into the machine's byte
/// order.
pub fn rev_predict_f32(input: &mut [u8], output: &mut [u8], samples: usize)
    requires
        samples >= 1,
        old(output)@.len() / 4 <= old(input)@.len() / 4,
    ensures
        final(input)@.len() == old(input)@.len(),
        exists|host: Endianness| #[trigger] elems(final(input)@, 1, host) == rev_hdiff(elems(old(input)@, 1, host), samples as int, 0x100)
            && unshuffled(final(input)@, old(output)@, final(output)@, 4, host),
{
    rev_predict_float_in(input, output, samples, 4, native_endianness());
}

/// Reverts the floating-point predictor on one row of 64-bit values, into the machine's byte
/// order.
pub fn rev_predict_f64(input: &mut [u8], output: &mut [u8], samples: usize)
    requires
        samples >= 1,
        old(output)@.len() / 8 <= old(input)@.len() / 8,
    ensures
        final(input)@.len() == old(input)@.len(),
        exists|host: Endianness| #[trigger] elems(final(input)@, 1, host) == rev_hdiff(elems(old(input)@, 1, host), samples as int, 0x100)
            && unshuffled(final(input)@, old(output)@, final(output)@, 8, host),
{
    rev_predict_float_in(input, output, samples, 8, native_endianness());
}

/// What reverting a predictor needs to know of an image: its sizes and sample layout.
///
/// A strip is a chunk as wide as the image.
#[derive(Debug, Clone, Copy)]
pub struct PredictorInfo {
    /// Byte order of the file.
    pub endianness: Endianness,
    /// Width of the image in pixels.
    pub image_width: u32,
    /// Height of the image in pixels.
    pub image_height: u32,
    /// Width of a chunk in pixels.
    pub chunk_width: u32,
    /// Height of a chunk in pixels.
    pub chunk_height: u32,
    /// Bits of each sample; all samples have the same.
    pub bits_per_sample: u16,
    /// Samples of each pixel.
    pub samples_per_pixel: u16,
    /// Format of the samples.
    pub sample_format: SampleFormat,
    /// How the samples of a pixel are laid out.
    pub planar_configuration: PlanarConfiguration,
}

/// `a / b` rounded up.
pub open spec fn div_ceil(a: int, b: int) -> int {
    (a + b - 1) / b
}

/// The size of chunk `i` of `n` chunks of nominal size `chunk` over an extent `total`: the
/// last one holds what is left.
pub open spec fn chunk_extent(total: int, chunk: int, i: int) -> int {
    if i == div_ceil(total, chunk) - 1 { total - chunk * i } else { chunk }
}

proof fn lemma_chunks(total: int, chunk: int, i: int)
    requires
        0 <= total,
        0 < chunk,
        0 <= i < div_ceil(total, chunk),
    ensures
        chunk * i < total,
        div_ceil(total, chunk) <= total,
{
    assert(chunk * i < total) by (nonlinear_arith)
        requires 0 <= total, 0 < chunk, 0 <= i, i < (total + chunk - 1) / chunk;
    assert((total + chunk - 1) / chunk <= total) by (nonlinear_arith)
        requires 0 <= total, 0 < chunk, 0 <= i, i < (total + chunk - 1) / chunk;
}

/// The chunk width of an IFD: its tile width, else its image width.
pub open spec fn ifd_chunk_width(ifd: &ImageFileDirectory) -> u32 {
    match ifd.tile_width {
        Some(w) => w,
        None => ifd.image_width,
    }
}

/// The chunk height of an IFD: its tile height, else its rows per strip, else its image
/// height.
pub open spec fn ifd_chunk_height(ifd: &ImageFileDirectory) -> u32 {
    match ifd.tile_height {
        Some(h) => h,
        None => match ifd.rows_per_strip {
            Some(h) => h,
            None => ifd.image_height,
        },
    }
}

/// Why an IFD has no predictor information: no bits per sample, or a chunk size of zero.
pub open spec fn predictor_info_error(ifd: &ImageFileDirectory) -> Option<AsyncTiffError> {
    if ifd.bits_per_sample@.len() == 0 {
        Some(format_err(TiffFormatError::RequiredTagEmpty(Tag::BitsPerSample)))
    } else if ifd_chunk_width(ifd) == 0 || ifd_chunk_height(ifd) == 0 {
        Some(format_err(TiffFormatError::InvalidDimensions(ifd_chunk_width(ifd), ifd_chunk_height(ifd))))
    } else {
        None
    }
}

impl PredictorInfo {
    /// The chunk sizes are not zero.
    pub open spec fn wf(&self) -> bool {
        self.chunk_width > 0 && self.chunk_height > 0
    }

    /// The number of chunks across.
    pub open spec fn spec_chunks_across(&self) -> int {
        div_ceil(self.image_width as int, self.chunk_width as int)
    }

    /// The number of chunks down.
    pub open spec fn spec_chunks_down(&self) -> int {
        div_ceil(self.image_height as int, self.chunk_height as int)
    }

    /// Bits of each pixel of a chunk's rows: all its samples where they are interleaved, one
    /// sample where each has its own plane.
    pub open spec fn spec_bits_per_pixel(&self) -> int {
        match self.planar_configuration {
            PlanarConfiguration::Chunky => self.bits_per_sample * self.samples_per_pixel,
            PlanarConfiguration::Planar => self.bits_per_sample as int,
        }
    }

    /// The predictor information of an IFD: its chunks are its tiles, or else its strips.
    pub fn from_ifd(ifd: &ImageFileDirectory) -> (r: AsyncTiffResult<PredictorInfo>)
        ensures
            match r {
                Ok(info) => info.wf() && info.endianness == ifd.endianness && info.image_width == ifd.image_width
                    && info.image_height == ifd.image_height && info.chunk_width == (match ifd.tile_width {
                    Some(w) => w,
                    None => ifd.image_width,
                }) && info.chunk_height == (match ifd.tile_height {
                    Some(h) => h,
                    None => match ifd.rows_per_strip {
                        Some(h) => h,
                        None => ifd.image_height,
                    },
                }) && ifd.bits_per_sample@.len() > 0 && info.bits_per_sample == ifd.bits_per_sample@[0]
                    && info.samples_per_pixel == ifd.samples_per_pixel && info.planar_configuration
                    == ifd.planar_configuration && info.sample_format == (if ifd.sample_format@.len() > 0 {
                    ifd.sample_format@[0]
                } else {
                    SampleFormat::Uint
                }),
                Err(e) => predictor_info_error(ifd) == Some(e),
            },
            r is Ok <==> predictor_info_error(ifd) is None,
    {
        if ifd.bits_per_sample.len() == 0 {
            return Err(AsyncTiffError::InternalTIFFError(TiffError::FormatError(TiffFormatError::RequiredTagEmpty(Tag::BitsPerSample))));
        }
        let chunk_width = match ifd.tile_width {
            Some(w) => w,
            None => ifd.image_width,
        };
        let chunk_height = match ifd.tile_height {
            Some(h) => h,
            None => match ifd.rows_per_strip {
                Some(h) => h,
                None => ifd.image_height,
            },
        };
        if chunk_width == 0 || chunk_height == 0 {
            return Err(AsyncTiffError::InternalTIFFError(TiffError::FormatError(TiffFormatError::InvalidDimensions(chunk_width, chunk_height))));
        }
        let sample_format = if ifd.sample_format.len() > 0 {
            ifd.sample_format[0]
        } else {
            SampleFormat::Uint
        };
        Ok(PredictorInfo {
            endianness: ifd.endianness,
            image_width: ifd.image_width,
            image_height: ifd.image_height,
            chunk_width,
            chunk_height,
            bits_per_sample: ifd.bits_per_sample[0],
            samples_per_pixel: ifd.samples_per_pixel,
            sample_format,
            planar_configuration: ifd.planar_configuration,
        })
    }

    /// The byte order of the file.
    pub fn endianness(&self) -> (r: Endianness)
        ensures
            r == self.endianness,
    {
        self.endianness
    }

    /// Bits of each sample.
    pub fn bits_per_sample(&self) -> (r: u16)
        ensures
            r == self.bits_per_sample,
    {
        self.bits_per_sample
    }

    /// The number of chunks across the image.
    pub fn chunks_across(&self) -> (r: u32)
        requires
            self.wf(),
        ensures
            r == self.spec_chunks_across(),
    {
        let w = self.image_width as u64;
        let c = self.chunk_width as u64;
        proof {
            if w > 0 {
                assert((w + c - 1) as int / c as int <= w) by (nonlinear_arith)
                    requires c > 0, w > 0;
            } else {
                assert((w + c - 1) as int / c as int == 0) by (nonlinear_arith)
                    requires c > 0, w == 0;
            }
        }
        ((w + c - 1) / c) as u32
    }

    /// The number of chunks down the image.
    pub fn chunks_down(&self) -> (r: u32)
        requires
            self.wf(),
        ensures
            r == self.spec_chunks_down(),
    {
        let h = self.image_height as u64;
        let c = self.chunk_height as u64;
        proof {
            if h > 0 {
                assert((h + c - 1) as int / c as int <= h) by (nonlinear_arith)
                    requires c > 0, h > 0;
            } else {
                assert((h + c - 1) as int / c as int == 0) by (nonlinear_arith)
                    requires c > 0, h == 0;
            }
        }
        ((h + c - 1) / c) as u32
    }

    /// Width in pixels of the chunks of column `x`: the last column holds what is left.
    pub fn chunk_width_pixels(&self, x: u32) -> (r: AsyncTiffResult<u32>)
        requires
            self.wf(),
        ensures
            x >= self.spec_chunks_across() ==> r == Err::<u32, AsyncTiffError>(
                AsyncTiffError::TileIndexError(x, self.spec_chunks_across() as u32),
            ),
            x < self.spec_chunks_across() ==> r == Ok::<u32, AsyncTiffError>(
                chunk_extent(self.image_width as int, self.chunk_width as int, x as int) as u32,
            ),
            r matches Ok(v) ==> v as int == chunk_extent(self.image_width as int, self.chunk_width as int, x as int),
    {
        let across = self.chunks_across();
        if x >= across {
            Err(AsyncTiffError::TileIndexError(x, across))
        } else if x == across - 1 {
            proof {
                lemma_chunks(self.image_width as int, self.chunk_width as int, x as int);
            }
            Ok(self.image_width - self.chunk_width * x)
        } else {
            Ok(self.chunk_width)
        }
    }

    /// Height in pixels of the chunks of row `y`: the last row holds what is left.
    pub fn chunk_height_pixels(&self, y: u32) -> (r: AsyncTiffResult<u32>)
        requires
            self.wf(),
        ensures
            y >= self.spec_chunks_down() ==> r == Err::<u32, AsyncTiffError>(
                AsyncTiffError::TileIndexError(y, self.spec_chunks_down() as u32),
            ),
            y < self.spec_chunks_down() ==> r == Ok::<u32, AsyncTiffError>(
                chunk_extent(self.image_height as int, self.chunk_height as int, y as int) as u32,
            ),
            r matches Ok(v) ==> v as int == chunk_extent(self.image_height as int, self.chunk_height as int, y as int),
    {
        let down = self.chunks_down();
        if y >= down {
            Err(AsyncTiffError::TileIndexError(y, down))
        } else if y == down - 1 {
            proof {
                lemma_chunks(self.image_height as int, self.chunk_height as int, y as int);
            }
            Ok(self.image_height - self.chunk_height * y)
        } else {
            Ok(self.chunk_height)
        }
    }

    /// Bits of each pixel of a chunk's rows.
    pub fn bits_per_pixel(&self) -> (r: u64)
        ensures
            r == self.spec_bits_per_pixel(),
            r <= 0xFFFF * 0xFFFF,
    {
        let b = self.bits_per_sample as u64;
        let n = self.samples_per_pixel as u64;
        proof {
            assert(b * n <= 0xFFFF * 0xFFFF) by (nonlinear_arith)
                requires b <= 0xFFFF, n <= 0xFFFF;
        }
        match self.planar_configuration {
            PlanarConfiguration::Chunky => b * n,
            PlanarConfiguration::Planar => b,
        }
    }

    /// Bytes of each output row of the chunks of column `x`.
    pub fn output_row_stride(&self, x: u32) -> (r: AsyncTiffResult<u64>)
        requires
            self.wf(),
        ensures
            x >= self.spec_chunks_across() ==> r == Err::<u64, AsyncTiffError>(
                AsyncTiffError::TileIndexError(x, self.spec_chunks_across() as u32),
            ),
            x < self.spec_chunks_across() ==> r == Ok::<u64, AsyncTiffError>(
                (chunk_extent(self.image_width as int, self.chunk_width as int, x as int) * self.spec_bits_per_pixel() / 8) as u64,
            ),
            x < self.spec_chunks_across() ==> (r matches Ok(v) && v as int == row_stride(*self, x as int)),
    {
        let w = match self.chunk_width_pixels(x) {
            Ok(w) => w,
            Err(e) => {
                return Err(e);
            },
        };
        let bpp = self.bits_per_pixel();
        let wide = w as u64;
        let b = bpp as u64;
        proof {
            assert(wide * b <= 0xFFFF_FFFF * 0x1_0000_0000) by (nonlinear_arith)
                requires wide <= 0xFFFF_FFFF, b <= 0xFFFF * 0xFFFF;
        }
        Ok((wide * b) / 8)
    }

    /// The number of output rows of the chunks of row `y`: one per pixel row, times the
    /// samples where each has its own plane.
    pub fn output_rows(&self, y: u32) -> (r: AsyncTiffResult<u64>)
        requires
            self.wf(),
        ensures
            y >= self.spec_chunks_down() ==> r == Err::<u64, AsyncTiffError>(
                AsyncTiffError::TileIndexError(y, self.spec_chunks_down() as u32),
            ),
            y < self.spec_chunks_down() ==> r == Ok::<u64, AsyncTiffError>(
                (match self.planar_configuration {
                    PlanarConfiguration::Chunky => chunk_extent(self.image_height as int, self.chunk_height as int, y as int),
                    PlanarConfiguration::Planar => chunk_extent(self.image_height as int, self.chunk_height as int, y as int)
                        * self.samples_per_pixel,
                }) as u64,
            ),
    {
        let h = match self.chunk_height_pixels(y) {
            Ok(h) => h,
            Err(e) => {
                return Err(e);
            },
        };
        match self.planar_configuration {
            PlanarConfiguration::Chunky => Ok(h as u64),
            PlanarConfiguration::Planar => {
                let hh = h as u64;
                let n = self.samples_per_pixel as u64;
                proof {
                    assert(hh * n <= 0xFFFF_FFFF * 0xFFFF) by (nonlinear_arith)
                        requires hh <= 0xFFFF_FFFF, n <= 0xFFFF;
                }
                Ok(hh * n)
            },
        }
    }
}

/// The bytes of the row of `s` that starts at `start`, at most `st` of them.
pub open spec fn row_at(s: Seq<u8>, start: int, st: int) -> Seq<u8> {
    s.subrange(start, if start + st <= s.len() { start + st } else { s.len() as int })
}

/// Every row of `b` (rows of `st` bytes, the last one maybe shorter) is the matching row of
/// `a` with horizontal differencing reverted on `w`-byte elements in byte order `h`.
pub open spec fn rows_hdiff_reverted(a: Seq<u8>, b: Seq<u8>, st: int, w: int, samples: int, h: Endianness) -> bool {
    &&& b.len() == a.len()
    &&& forall|r: int| 0 <= r && #[trigger] (r * st) < a.len() ==> elems(row_at(b, r * st, st), w, h)
        == rev_hdiff(elems(row_at(a, r * st, st), w, h), samples, modulus(w))
}

/// Copies `src` into `dst[at..]`.
fn copy_into(dst: &mut [u8], at: usize, src: &[u8])
    requires
        at + src@.len() <= old(dst)@.len(),
    ensures
        final(dst)@.len() == old(dst)@.len(),
        final(dst)@.subrange(at as int, at + src@.len()) == src@,
        forall|p: int| 0 <= p < old(dst)@.len() && (p < at || p >= at + src@.len()) ==> final(dst)@[p] == old(dst)@[p],
{
    let dlen = dst.len();
    let mut i: usize = 0;
    while i < src.len()
        invariant
            i <= src@.len(),
            dst@.len() == dlen,
            at + src@.len() <= dst@.len(),
            dst@.len() == old(dst)@.len(),
            forall|j: int| 0 <= j < i ==> dst@[at + j] == src@[j],
            forall|p: int| 0 <= p < dst@.len() && (p < at || p >= at + i) ==> dst@[p] == old(dst)@[p],
        decreases src@.len() - i,
    {
        dst[at + i] = src[i];
        i += 1;
    }
    proof {
        assert(dst@.subrange(at as int, at + src@.len()) =~= src@);
    }
}

/// The stride of the output rows of the chunks of column `x`.
pub open spec fn row_stride(info: PredictorInfo, x: int) -> int {
    chunk_extent(info.image_width as int, info.chunk_width as int, x) * info.spec_bits_per_pixel() / 8
}

/// A chunk of `len` bytes of column `x` can have its horizontal predictor reverted: whole
/// elements of at most 64 bits, at least one sample per pixel, and rows of whole elements.
pub open spec fn hdiff_supported(info: PredictorInfo, x: int, len: int) -> bool {
    &&& info.bits_per_sample <= 64
    &&& info.samples_per_pixel >= 1
    &&& row_stride(info, x) > 0
    &&& row_stride(info, x) % depth_width(info.bits_per_sample) == 0
    &&& len % depth_width(info.bits_per_sample) == 0
}

proof fn lemma_mod_width(d: int, a: int, b: int, w: int)
    requires
        d == b - a,
        w == 1 || w == 2 || w == 4 || w == 8,
        a % w == 0,
        b % w == 0,
    ensures
        d % w == 0,
{
}

proof fn lemma_row_order(q: int, r: int, st: int)
    requires
        0 <= q < r,
        st > 0,
    ensures
        q * st + st <= r * st,
{
    assert(q * st + st <= r * st) by (nonlinear_arith)
        requires 0 <= q < r, st > 0;
}

/// Reverts the horizontal predictor on a decoded chunk of column `tile_x`, row by row, after
/// putting its elements in the machine's byte order.
pub fn unpredict_hdiff(buffer: &mut [u8], predictor_info: &PredictorInfo, tile_x: u32) -> (r: AsyncTiffResult<()>)
    requires
        predictor_info.wf(),
    ensures
        final(buffer)@.len() == old(buffer)@.len(),
        tile_x >= predictor_info.spec_chunks_across() ==> r == Err::<(), AsyncTiffError>(
            AsyncTiffError::TileIndexError(tile_x, predictor_info.spec_chunks_across() as u32),
        ),
        tile_x < predictor_info.spec_chunks_across() ==> (r is Ok <==> hdiff_supported(*predictor_info, tile_x as int, old(buffer)@.len() as int)),
        r is Err ==> final(buffer)@ == old(buffer)@,
        tile_x < predictor_info.spec_chunks_across() && r is Err ==> r == Err::<(), AsyncTiffError>(
            unsupported_err(TiffUnsupportedError::UnsupportedBitsPerChannel(predictor_info.bits_per_sample)),
        ),
        r is Ok ==> exists|host: Endianness, fixed: Seq<u8>| endian_fixed(old(buffer)@, fixed, predictor_info.endianness, host, predictor_info.bits_per_sample)
            && #[trigger] rows_hdiff_reverted(
                fixed,
                final(buffer)@,
                row_stride(*predictor_info, tile_x as int),
                depth_width(predictor_info.bits_per_sample),
                predictor_info.samples_per_pixel as int,
                host,
            ),
{
    let stride = match predictor_info.output_row_stride(tile_x) {
        Ok(s) => s,
        Err(e) => {
            return Err(e);
        },
    };
    let bits = predictor_info.bits_per_sample;
    let samples = predictor_info.samples_per_pixel as usize;
    let width: usize = if bits <= 8 { 1 } else if bits <= 16 { 2 } else if bits <= 32 { 4 } else { 8 };
    let len = buffer.len();
    if bits > 64 || samples == 0 || stride == 0 || stride % (width as u64) != 0 || len % width != 0 {
        return Err(AsyncTiffError::InternalTIFFError(TiffError::UnsupportedError(TiffUnsupportedError::UnsupportedBitsPerChannel(bits))));
    }
    let host = native_endianness();
    fix_endianness_to(buffer, predictor_info.endianness, host, bits);
    let ghost fixed = buffer@;
    let ghost st = stride as int;
    let mut pos: usize = 0;
    let ghost mut r: int = 0;
    while pos < len
        invariant
            len == buffer@.len(),
            fixed.len() == len,
            st == stride,
            stride > 0,
            stride as int % width as int == 0,
            len as int % width as int == 0,
            width as int == depth_width(bits),
            samples >= 1,
            bits <= 64,
            0 <= r,
            pos <= len,
            pos as int % width as int == 0,
            pos < len ==> pos == r * st,
            forall|q: int| 0 <= q < r && #[trigger] (q * st) < len ==> elems(row_at(buffer@, q * st, st), width as int, host)
                == rev_hdiff(elems(row_at(fixed, q * st, st), width as int, host), samples as int, modulus(width as int)),
            pos == len ==> forall|q: int| 0 <= q && #[trigger] (q * st) < len ==> q < r,
            forall|p: int| pos <= p < len ==> #[trigger] buffer@[p] == fixed[p],
        decreases len - pos,
    {
        let end: usize = if stride >= (len - pos) as u64 { len } else { pos + stride as usize };
        let mut row = slice_to_vec(&buffer[pos..end]);
        proof {
            assert(row@ =~= row_at(fixed, r * st, st));
            lemma_mod_width((end - pos) as int, pos as int, end as int, width as int);
        }
        rev_hpredict_nsamp_in(row.as_mut_slice(), bits, samples, host);
        let ghost before = buffer@;
        copy_into(buffer, pos, row.as_slice());
        proof {
            assert(row_at(buffer@, r * st, st) =~= row@);
            assert forall|q: int| 0 <= q < r + 1 && #[trigger] (q * st) < len implies elems(row_at(buffer@, q * st, st), width as int, host)
                == rev_hdiff(elems(row_at(fixed, q * st, st), width as int, host), samples as int, modulus(width as int)) by {
                if q < r {
                    lemma_row_order(q, r, st);
                    assert(row_at(buffer@, q * st, st) =~= row_at(before, q * st, st));
                }
            }
            if end == len {
                assert forall|q: int| 0 <= q && #[trigger] (q * st) < len implies q < r + 1 by {
                    if q >= r + 1 {
                        lemma_row_order(r, q, st);
                    }
                }
            }
        }
        proof {
            assert((r + 1) * st == r * st + st) by (nonlinear_arith);
        }
        pos = end;
        proof {
            r = r + 1;
        }
    }
    proof {
        assert(rows_hdiff_reverted(fixed, buffer@, st, width as int, samples as int, host));
    }
    Ok(())
}
/// `n` zero bytes.
pub open spec fn zeros(n: nat) -> Seq<u8> {
    Seq::new(n, |i: int| 0u8)
}

/// Row `r` of `out` (rows of `ost` bytes) is the start of row `r` of `input` (rows of `ist`
/// bytes) with the floating-point predictor reverted for `w`-byte values written in byte
/// order `h`: `in_new` holds the input rows after bytewise differencing is reverted.
pub open spec fn float_row_reverted(in_old: Seq<u8>, in_new: Seq<u8>, out: Seq<u8>, r: int, ist: int, ost: int, w: int, samples: int, h: Endianness) -> bool {
    let a = row_at(in_old, r * ist, ist);
    let b = row_at(in_new, r * ist, ist);
    let o = row_at(out, r * ost, ost);
    &&& elems(b, 1, h) == rev_hdiff(elems(a, 1, h), samples, 0x100)
    &&& exists|full: Seq<u8>| #[trigger] unshuffled(b, zeros(b.len()), full, w, h) && (if o.len() <= full.len() {
        o == full.subrange(0, o.len() as int)
    } else {
        o.subrange(0, full.len() as int) == full
    })
}

/// Every row that `in_old` (rows of `ist` bytes) and `out` (rows of `ost` bytes) both have is
/// reverted as [`float_row_reverted`] says.
pub open spec fn float_rows_reverted(in_old: Seq<u8>, in_new: Seq<u8>, out: Seq<u8>, ist: int, ost: int, w: int, samples: int, h: Endianness) -> bool {
    forall|q: int| 0 <= q && #[trigger] (q * ost) < out.len() && q * ist < in_old.len() ==> float_row_reverted(
        in_old, in_new, out, q, ist, ost, w, samples, h)
}

/// The input row stride of a chunk of column `x` with the floating-point predictor: its full
/// width, padding included.
pub open spec fn float_input_stride(info: PredictorInfo) -> int {
    info.chunk_width * info.spec_bits_per_pixel() / 8
}

/// A chunk of column `x` can have its floating-point predictor reverted: 16-, 32- or 64-bit
/// samples, at least one per pixel, rows that are not empty and no longer than the full
/// chunk width.
pub open spec fn float_supported(info: PredictorInfo, x: int) -> bool {
    &&& (info.bits_per_sample == 16 || info.bits_per_sample == 32 || info.bits_per_sample == 64)
    &&& info.samples_per_pixel >= 1
    &&& row_stride(info, x) > 0
    &&& row_stride(info, x) <= float_input_stride(info)
}

/// Reverts the floating-point predictor on the decoded chunk `in_buffer` of column `tile_x`
/// into `out_buffer`, row by row, in the machine's byte order. The rows of a chunk at the right
/// edge of the image are cut to the image.
#[verifier::rlimit(100)]
pub fn unpredict_float(in_buffer: &mut [u8], out_buffer: &mut [u8], predictor_info: &PredictorInfo, tile_x: u32) -> (r: AsyncTiffResult<()>)
    requires
        predictor_info.wf(),
    ensures
        tile_x >= predictor_info.spec_chunks_across() ==> r == Err::<(), AsyncTiffError>(
            AsyncTiffError::TileIndexError(tile_x, predictor_info.spec_chunks_across() as u32),
        ),
        tile_x < predictor_info.spec_chunks_across() ==> (r is Ok <==> float_supported(*predictor_info, tile_x as int)),
        tile_x < predictor_info.spec_chunks_across() && r is Err ==> r == Err::<(), AsyncTiffError>(
            unsupported_err(TiffUnsupportedError::UnsupportedBitsPerChannel(predictor_info.bits_per_sample)),
        ),
        r is Err ==> final(out_buffer)@ == old(out_buffer)@,
        final(out_buffer)@.len() == old(out_buffer)@.len(),
        r is Ok ==> exists|host: Endianness| #[trigger] float_rows_reverted(
            old(in_buffer)@,
            final(in_buffer)@,
            final(out_buffer)@,
            float_input_stride(*predictor_info),
            row_stride(*predictor_info, tile_x as int),
            predictor_info.bits_per_sample as int / 8,
            predictor_info.samples_per_pixel as int,
            host,
        ),
{
    let ost = match predictor_info.output_row_stride(tile_x) {
        Ok(s) => s,
        Err(e) => {
            return Err(e);
        },
    };
    let bits = predictor_info.bits_per_sample;
    let samples = predictor_info.samples_per_pixel as usize;
    let bpp = predictor_info.bits_per_pixel();
    let cw = predictor_info.chunk_width as u64;
    proof {
        assert(cw * bpp <= 0xFFFF_FFFF * (0xFFFF * 0xFFFF)) by (nonlinear_arith)
            requires cw <= 0xFFFF_FFFF, bpp <= 0xFFFF * 0xFFFF;
    }
    let ist = cw * bpp / 8;
    if !(bits == 16 || bits == 32 || bits == 64) || samples == 0 || ost == 0 || ost > ist {
        return Err(AsyncTiffError::InternalTIFFError(TiffError::UnsupportedError(TiffUnsupportedError::UnsupportedBitsPerChannel(bits))));
    }
    let w: usize = (bits / 8) as usize;
    let host = native_endianness();
    let ghost in_old = in_buffer@;
    let ghost out_old = out_buffer@;
    let ilen = in_buffer.len();
    let olen = out_buffer.len();
    let mut ipos: usize = 0;
    let mut opos: usize = 0;
    let ghost mut r: int = 0;
    while ipos < ilen && opos < olen
        invariant
            ilen == in_buffer@.len(),
            olen == out_buffer@.len(),
            in_old.len() == ilen,
            0 < ost <= ist,
            w == 2 || w == 4 || w == 8,
            samples >= 1,
            0 <= r,
            ipos <= ilen,
            opos <= olen,
            ipos < ilen ==> ipos == r * ist,
            opos < olen ==> opos == r * ost,
            forall|q: int| 0 <= q < r && #[trigger] (q * ost) < olen && q * ist < ilen ==> float_row_reverted(
                in_old, in_buffer@, out_buffer@, q, ist as int, ost as int, w as int, samples as int, host),
            (ipos == ilen || opos == olen) ==> forall|q: int| 0 <= q && #[trigger] (q * ost) < olen && q * ist < ilen ==> q < r,
            forall|p: int| ipos <= p < ilen ==> #[trigger] in_buffer@[p] == in_old[p],
        decreases ilen - ipos,
    {
        let iend: usize = if ist >= (ilen - ipos) as u64 { ilen } else { ipos + ist as usize };
        let oend: usize = if ost >= (olen - opos) as u64 { olen } else { opos + ost as usize };
        let mut row = slice_to_vec(&in_buffer[ipos..iend]);
        let row_len = iend - ipos;
        let mut full: Vec<u8> = vec![0u8; row_len];
        let ghost row_old = row@;
        proof {
            assert(row@ =~= row_at(in_old, r * ist, ist as int));
            assert(full@ =~= zeros(row@.len()));
            assert((full@.len() as nat) / (w as nat) <= (row@.len() as nat) / (w as nat));
        }
        rev_predict_float_in(row.as_mut_slice(), full.as_mut_slice(), samples, w, host);
        let n_out: usize = if oend - opos <= row_len { oend - opos } else { row_len };
        let ghost in_before = in_buffer@;
        let ghost out_before = out_buffer@;
        copy_into(in_buffer, ipos, row.as_slice());
        copy_into(out_buffer, opos, &full.as_slice()[0..n_out]);
        proof {
            assert(row_at(in_buffer@, r * ist, ist as int) =~= row@);
            if oend - opos <= row_len {
                assert(row_at(out_buffer@, r * ost, ost as int) =~= full@.subrange(0, (oend - opos) as int));
            } else {
                assert(row_at(out_buffer@, r * ost, ost as int).subrange(0, full@.len() as int) =~= full@);
            }
            assert(float_row_reverted(in_old, in_buffer@, out_buffer@, r, ist as int, ost as int, w as int, samples as int, host));
            assert forall|q: int| 0 <= q < r + 1 && #[trigger] (q * ost) < olen && q * ist < ilen implies float_row_reverted(
                in_old, in_buffer@, out_buffer@, q, ist as int, ost as int, w as int, samples as int, host) by {
                if q < r {
                    lemma_row_order(q, r, ist as int);
                    lemma_row_order(q, r, ost as int);
                    assert(row_at(in_buffer@, q * ist, ist as int) =~= row_at(in_before, q * ist, ist as int));
                    assert(row_at(out_buffer@, q * ost, ost as int) =~= row_at(out_before, q * ost, ost as int));
                    assert(row_at(in_old, q * ist, ist as int) =~= row_at(in_old, q * ist, ist as int));
                }
            }
            if iend == ilen || oend == olen {
                assert forall|q: int| 0 <= q && #[trigger] (q * ost) < olen && q * ist < ilen implies q < r + 1 by {
                    if q >= r + 1 {
                        lemma_row_order(r, q, ist as int);
                        lemma_row_order(r, q, ost as int);
                    }
                }
            }
            assert((r + 1) * ist == r * ist + ist) by (nonlinear_arith);
            assert((r + 1) * ost == r * ost + ost) by (nonlinear_arith);
        }
        ipos = iend;
        opos = oend;
        proof {
            r = r + 1;
        }
    }
    proof {
        assert(float_rows_reverted(in_old, in_buffer@, out_buffer@, ist as int, ost as int, w as int, samples as int, host));
        assert(ist as int == float_input_stride(*predictor_info));
        assert(ost as int == row_stride(*predictor_info, tile_x as int));
        assert(w as int == predictor_info.bits_per_sample as int / 8);
        assert(in_old == old(in_buffer)@);
    }
    Ok(())
}

/// Horizontal differencing with stride `st` modulo `m`: what a writer applies to elements `e`
/// before compression.
pub open spec fn hdiff(e: Seq<int>, st: int, m: int) -> Seq<int> {
    Seq::new(e.len(), |j: int| if j < st { e[j] } else { (e[j] - e[j - st]) % m })
}

proof fn lemma_hp_of_hdiff(e: Seq<int>, st: int, m: int, j: int)
    requires
        st >= 1,
        m >= 1,
        0 <= j < e.len(),
        forall|i: int| 0 <= i < e.len() ==> 0 <= #[trigger] e[i] < m,
    ensures
        hp_at(hdiff(e, st, m), j, st, m) == e[j],
    decreases j,
{
    let d = hdiff(e, st, m);
    if j >= st {
        lemma_hp_of_hdiff(e, st, m, j - st);
        lemma_add_mod_noop(e[j] - e[j - st], e[j - st], m);
        lemma_small_mod(e[j - st] as nat, m as nat);
        lemma_small_mod(e[j] as nat, m as nat);
        assert(d[j] == (e[j] - e[j - st]) % m);
    }
}

/// Reverting horizontal differencing undoes it: for elements of any width, with any stride of
/// at least one sample.
pub proof fn lemma_hdiff_inverse(e: Seq<int>, st: int, m: int)
    requires
        st >= 1,
        m >= 1,
        forall|i: int| 0 <= i < e.len() ==> 0 <= #[trigger] e[i] < m,
    ensures
        rev_hdiff(hdiff(e, st, m), st, m) == e,
{
    assert forall|j: int| 0 <= j < e.len() implies #[trigger] rev_hdiff(hdiff(e, st, m), st, m)[j] == e[j] by {
        lemma_hp_of_hdiff(e, st, m, j);
    }
    assert(rev_hdiff(hdiff(e, st, m), st, m) =~= e);
}

/// The byte of `w`-byte value `g` that byte plane `pl` holds, for values in byte order `h`.
pub open spec fn byte_of_plane(pl: int, w: int, h: Endianness) -> int {
    if h == Endianness::BigEndian { pl } else { w - 1 - pl }
}

/// The byte shuffle of the floating-point predictor: the `w`-byte values of `x`, written in
/// byte order `h`, split into byte planes from the most significant byte to the least.
pub open spec fn shuffle(x: Seq<u8>, w: int, h: Endianness) -> Seq<u8> {
    let q = x.len() as int / w;
    Seq::new(x.len(), |p: int| x[(p % q) * w + byte_of_plane(p / q, w, h)])
}

/// Gathering the byte planes of a shuffled row gives the row back.
pub proof fn lemma_unshuffle_shuffle(x: Seq<u8>, w: int, h: Endianness)
    requires
        w == 2 || w == 4 || w == 8,
        x.len() as int % w == 0,
    ensures
        unshuffled(shuffle(x, w, h), zeros(x.len()), x, w, h),
{
    let q = x.len() as int / w;
    let sh = shuffle(x, w, h);
    assert(x.len() == q * w);
    assert forall|g: int, k: int| 0 <= g < x.len() as int / w && 0 <= k < w implies #[trigger] x[g * w + k] == sh[plane(k, w, h) * (sh.len() as int / w) + g] by {
        let pl = plane(k, w, h);
        let p = pl * q + g;
        lemma_fundamental_div_mod_converse(p, q, pl, g);
        assert(0 <= p < x.len()) by (nonlinear_arith)
            requires 0 <= pl < w, 0 <= g < q, p == pl * q + g, x.len() == q * w;
        assert(byte_of_plane(pl, w, h) == k);
    }
    assert forall|p: int| (x.len() as int / w) * w <= p < x.len() implies #[trigger] x[p] == zeros(x.len())[p] by {
    }
}

} // verus!
