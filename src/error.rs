//! Error kinds of the library.
use vstd::prelude::*;

use crate::tags::{CompressionMethod, PhotometricInterpretation, Predictor, SampleFormat, Tag};

verus! {

/// The file is not formatted properly.
#[derive(Debug, Clone, Copy, PartialEq, Eq, Structural)]
pub enum TiffFormatError {
    /// The BigTIFF header is malformed.
    TiffSignatureNotFound,
    /// The magic bytes or the version number are not those of a TIFF file.
    TiffSignatureInvalid,
    /// An entry's value is malformed (an ASCII value that is not ASCII).
    InvalidTag,
    /// An entry has a field type code that is not known.
    UnknownTagType(u16),
    /// The value of a tag does not have the type that the tag asks for.
    InvalidTagValueType(Tag),
    /// A tag that every image must have is missing.
    RequiredTagNotFound(Tag),
    /// A tag that must hold at least one value holds none.
    RequiredTagEmpty(Tag),
    /// Both or neither of the strip and tile tags are present.
    StripTileTagConflict,
    /// Two lists that must have the same length do not.
    InconsistentSizesEncountered,
    /// The image has zero samples per pixel.
    SamplesPerPixelIsZero,
    /// The GeoKeyDirectory is malformed.
    InvalidGeoKeyDirectory,
    /// The chunk width or height (`.0`, `.1`) is zero.
    InvalidDimensions(u32, u32),
    /// An uncompressed chunk holds `.0` bytes where `.1` are needed.
    UnexpectedCompressedData(u64, u64),
}

/// The file uses a feature that is not supported.
#[derive(Debug, Clone, Copy, PartialEq, Eq, Structural)]
pub enum TiffUnsupportedError {
    /// The samples of a pixel do not all have the same bit depth.
    InconsistentBitsPerSample,
    /// No codec is registered for this compression method.
    UnsupportedCompressionMethod(CompressionMethod),
    /// The predictor cannot be reverted for this data.
    UnsupportedPredictor(Predictor),
    /// The sample format is not supported.
    UnsupportedSampleFormat(SampleFormat),
    /// The bit depth is not supported.
    UnsupportedBitsPerChannel(u16),
    /// The photometric interpretation cannot be decoded.
    UnsupportedInterpretation(PhotometricInterpretation),
}

/// The caller asked for something that the image cannot give.
#[derive(Debug, Clone, Copy, PartialEq, Eq, Structural)]
pub enum UsageError {
    /// A chunk index beyond the image was requested.
    InvalidChunkIndex(u32),
    /// The image is neither tiled nor stripped as the request assumes.
    NotTiled,
    /// Two coordinate lists of different lengths were given.
    MismatchedCoordinates,
}

/// Errors of TIFF parsing and decoding.
#[derive(Debug, Clone, Copy, PartialEq, Eq, Structural)]
pub enum TiffError {
    /// The image is not formatted properly.
    FormatError(TiffFormatError),
    /// The image needs a feature that is not supported.
    UnsupportedError(TiffUnsupportedError),
    /// A size computation overflowed.
    IntSizeError,
    /// The image does not support the requested operation.
    UsageError(UsageError),
}

impl TiffError {
    /// A short description of the kind of error.
    pub fn description(&self) -> (r: &'static str)
        ensures
            r@ == match self {
                TiffError::FormatError(_) => "Format error"@,
                TiffError::UnsupportedError(_) => "Unsupported error"@,
                TiffError::IntSizeError => "Platform or format size limits exceeded"@,
                TiffError::UsageError(_) => "Invalid usage"@,
            },
    {
        match self {
            TiffError::FormatError(_) => "Format error",
            TiffError::UnsupportedError(_) => "Unsupported error",
            TiffError::IntSizeError => "Platform or format size limits exceeded",
            TiffError::UsageError(_) => "Invalid usage",
        }
    }
}

/// Every error of this library.
#[derive(Debug, Clone, Copy, PartialEq, Eq, Structural)]
pub enum AsyncTiffError {
    /// Reading `.1` bytes at offset `.0` runs past the end of the bytes at hand.
    EndOfFile(u64, u64),
    /// A TIFF format, support or usage error.
    InternalTIFFError(TiffError),
    /// Chunk index `.0` is not below the number of chunks `.1`.
    TileIndexError(u32, u32),
    /// The zlib stream is malformed or ends before the chunk is filled.
    IOError,
    /// The LZW stream is malformed or the decoder made no progress.
    External,
    /// The JPEG stream could not be decoded.
    JPEGDecodingError,
}

/// Result of the fallible operations of this library.
pub type AsyncTiffResult<T> = Result<T, AsyncTiffError>;

/// Wraps a format error.
pub open spec fn format_err(e: TiffFormatError) -> AsyncTiffError {
    AsyncTiffError::InternalTIFFError(TiffError::FormatError(e))
}

/// Wraps an unsupported-feature error.
pub open spec fn unsupported_err(e: TiffUnsupportedError) -> AsyncTiffError {
    AsyncTiffError::InternalTIFFError(TiffError::UnsupportedError(e))
}

} // verus!
