//! Names for the numeric codes of TIFF tags, field types and enumerated tag values.
use vstd::prelude::*;

verus! {

/// A TIFF tag: the 16-bit identifier of an IFD entry.
#[derive(Debug, Clone, Copy, PartialEq, Eq, Hash, Structural)]
pub enum Tag {
    NewSubfileType,
    ImageWidth,
    ImageLength,
    BitsPerSample,
    Compression,
    PhotometricInterpretation,
    DocumentName,
    ImageDescription,
    StripOffsets,
    Orientation,
    SamplesPerPixel,
    RowsPerStrip,
    StripByteCounts,
    MinSampleValue,
    MaxSampleValue,
    XResolution,
    YResolution,
    PlanarConfiguration,
    ResolutionUnit,
    Software,
    DateTime,
    Artist,
    HostComputer,
    Predictor,
    ColorMap,
    TileWidth,
    TileLength,
    TileOffsets,
    TileByteCounts,
    ExtraSamples,
    SampleFormat,
    JPEGTables,
    Copyright,
    ModelPixelScaleTag,
    ModelTiepointTag,
    GeoKeyDirectoryTag,
    GeoDoubleParamsTag,
    GeoAsciiParamsTag,
    /// A code that has no name here.
    Unknown(u16),
}

impl Tag {
    /// The a TIFF tag: the 16-bit identifier of an IFD entry with code `c`.
    pub open spec fn spec_from_u16(c: u16) -> Tag {
        match c {
            254 => Tag::NewSubfileType,
            256 => Tag::ImageWidth,
            257 => Tag::ImageLength,
            258 => Tag::BitsPerSample,
            259 => Tag::Compression,
            262 => Tag::PhotometricInterpretation,
            269 => Tag::DocumentName,
            270 => Tag::ImageDescription,
            273 => Tag::StripOffsets,
            274 => Tag::Orientation,
            277 => Tag::SamplesPerPixel,
            278 => Tag::RowsPerStrip,
            279 => Tag::StripByteCounts,
            280 => Tag::MinSampleValue,
            281 => Tag::MaxSampleValue,
            282 => Tag::XResolution,
            283 => Tag::YResolution,
            284 => Tag::PlanarConfiguration,
            296 => Tag::ResolutionUnit,
            305 => Tag::Software,
            306 => Tag::DateTime,
            315 => Tag::Artist,
            316 => Tag::HostComputer,
            317 => Tag::Predictor,
            320 => Tag::ColorMap,
            322 => Tag::TileWidth,
            323 => Tag::TileLength,
            324 => Tag::TileOffsets,
            325 => Tag::TileByteCounts,
            338 => Tag::ExtraSamples,
            339 => Tag::SampleFormat,
            347 => Tag::JPEGTables,
            33432 => Tag::Copyright,
            33550 => Tag::ModelPixelScaleTag,
            33922 => Tag::ModelTiepointTag,
            34735 => Tag::GeoKeyDirectoryTag,
            34736 => Tag::GeoDoubleParamsTag,
            34737 => Tag::GeoAsciiParamsTag,
            _ => Tag::Unknown(c),
        }
    }

    /// The code of this value.
    pub open spec fn spec_to_u16(self) -> u16 {
        match self {
            Tag::NewSubfileType => 254,
            Tag::ImageWidth => 256,
            Tag::ImageLength => 257,
            Tag::BitsPerSample => 258,
            Tag::Compression => 259,
            Tag::PhotometricInterpretation => 262,
            Tag::DocumentName => 269,
            Tag::ImageDescription => 270,
            Tag::StripOffsets => 273,
            Tag::Orientation => 274,
            Tag::SamplesPerPixel => 277,
            Tag::RowsPerStrip => 278,
            Tag::StripByteCounts => 279,
            Tag::MinSampleValue => 280,
            Tag::MaxSampleValue => 281,
            Tag::XResolution => 282,
            Tag::YResolution => 283,
            Tag::PlanarConfiguration => 284,
            Tag::ResolutionUnit => 296,
            Tag::Software => 305,
            Tag::DateTime => 306,
            Tag::Artist => 315,
            Tag::HostComputer => 316,
            Tag::Predictor => 317,
            Tag::ColorMap => 320,
            Tag::TileWidth => 322,
            Tag::TileLength => 323,
            Tag::TileOffsets => 324,
            Tag::TileByteCounts => 325,
            Tag::ExtraSamples => 338,
            Tag::SampleFormat => 339,
            Tag::JPEGTables => 347,
            Tag::Copyright => 33432,
            Tag::ModelPixelScaleTag => 33550,
            Tag::ModelTiepointTag => 33922,
            Tag::GeoKeyDirectoryTag => 34735,
            Tag::GeoDoubleParamsTag => 34736,
            Tag::GeoAsciiParamsTag => 34737,
            Tag::Unknown(c) => c,
        }
    }

    /// Maps a code to its value; codes without a name give `Unknown`.
    pub fn from_u16_exhaustive(c: u16) -> (r: Tag)
        ensures
            r == Tag::spec_from_u16(c),
    {
        match c {
            254 => Tag::NewSubfileType,
            256 => Tag::ImageWidth,
            257 => Tag::ImageLength,
            258 => Tag::BitsPerSample,
            259 => Tag::Compression,
            262 => Tag::PhotometricInterpretation,
            269 => Tag::DocumentName,
            270 => Tag::ImageDescription,
            273 => Tag::StripOffsets,
            274 => Tag::Orientation,
            277 => Tag::SamplesPerPixel,
            278 => Tag::RowsPerStrip,
            279 => Tag::StripByteCounts,
            280 => Tag::MinSampleValue,
            281 => Tag::MaxSampleValue,
            282 => Tag::XResolution,
            283 => Tag::YResolution,
            284 => Tag::PlanarConfiguration,
            296 => Tag::ResolutionUnit,
            305 => Tag::Software,
            306 => Tag::DateTime,
            315 => Tag::Artist,
            316 => Tag::HostComputer,
            317 => Tag::Predictor,
            320 => Tag::ColorMap,
            322 => Tag::TileWidth,
            323 => Tag::TileLength,
            324 => Tag::TileOffsets,
            325 => Tag::TileByteCounts,
            338 => Tag::ExtraSamples,
            339 => Tag::SampleFormat,
            347 => Tag::JPEGTables,
            33432 => Tag::Copyright,
            33550 => Tag::ModelPixelScaleTag,
            33922 => Tag::ModelTiepointTag,
            34735 => Tag::GeoKeyDirectoryTag,
            34736 => Tag::GeoDoubleParamsTag,
            34737 => Tag::GeoAsciiParamsTag,
            _ => Tag::Unknown(c),
        }
    }

    /// The code of this value.
    pub fn to_u16(&self) -> (r: u16)
        ensures
            r == self.spec_to_u16(),
    {
        match self {
            Tag::NewSubfileType => 254,
            Tag::ImageWidth => 256,
            Tag::ImageLength => 257,
            Tag::BitsPerSample => 258,
            Tag::Compression => 259,
            Tag::PhotometricInterpretation => 262,
            Tag::DocumentName => 269,
            Tag::ImageDescription => 270,
            Tag::StripOffsets => 273,
            Tag::Orientation => 274,
            Tag::SamplesPerPixel => 277,
            Tag::RowsPerStrip => 278,
            Tag::StripByteCounts => 279,
            Tag::MinSampleValue => 280,
            Tag::MaxSampleValue => 281,
            Tag::XResolution => 282,
            Tag::YResolution => 283,
            Tag::PlanarConfiguration => 284,
            Tag::ResolutionUnit => 296,
            Tag::Software => 305,
            Tag::DateTime => 306,
            Tag::Artist => 315,
            Tag::HostComputer => 316,
            Tag::Predictor => 317,
            Tag::ColorMap => 320,
            Tag::TileWidth => 322,
            Tag::TileLength => 323,
            Tag::TileOffsets => 324,
            Tag::TileByteCounts => 325,
            Tag::ExtraSamples => 338,
            Tag::SampleFormat => 339,
            Tag::JPEGTables => 347,
            Tag::Copyright => 33432,
            Tag::ModelPixelScaleTag => 33550,
            Tag::ModelTiepointTag => 33922,
            Tag::GeoKeyDirectoryTag => 34735,
            Tag::GeoDoubleParamsTag => 34736,
            Tag::GeoAsciiParamsTag => 34737,
            Tag::Unknown(c) => *c,
        }
    }

}

/// The field type of an IFD entry.
#[derive(Debug, Clone, Copy, PartialEq, Eq, Hash, Structural)]
pub enum Type {
    BYTE,
    ASCII,
    SHORT,
    LONG,
    RATIONAL,
    SBYTE,
    UNDEFINED,
    SSHORT,
    SLONG,
    SRATIONAL,
    FLOAT,
    DOUBLE,
    IFD,
    LONG8,
    SLONG8,
    IFD8,
}

impl Type {
    /// The value with code `c`, if it has one.
    pub open spec fn spec_from_u16(c: u16) -> Option<Type> {
        match c {
            1 => Some(Type::BYTE),
            2 => Some(Type::ASCII),
            3 => Some(Type::SHORT),
            4 => Some(Type::LONG),
            5 => Some(Type::RATIONAL),
            6 => Some(Type::SBYTE),
            7 => Some(Type::UNDEFINED),
            8 => Some(Type::SSHORT),
            9 => Some(Type::SLONG),
            10 => Some(Type::SRATIONAL),
            11 => Some(Type::FLOAT),
            12 => Some(Type::DOUBLE),
            13 => Some(Type::IFD),
            16 => Some(Type::LONG8),
            17 => Some(Type::SLONG8),
            18 => Some(Type::IFD8),
            _ => None,
        }
    }

    /// The code of this value.
    pub open spec fn spec_to_u16(self) -> u16 {
        match self {
            Type::BYTE => 1,
            Type::ASCII => 2,
            Type::SHORT => 3,
            Type::LONG => 4,
            Type::RATIONAL => 5,
            Type::SBYTE => 6,
            Type::UNDEFINED => 7,
            Type::SSHORT => 8,
            Type::SLONG => 9,
            Type::SRATIONAL => 10,
            Type::FLOAT => 11,
            Type::DOUBLE => 12,
            Type::IFD => 13,
            Type::LONG8 => 16,
            Type::SLONG8 => 17,
            Type::IFD8 => 18,
        }
    }

    /// Maps a code to its value; `None` for a code without one.
    pub fn from_u16(c: u16) -> (r: Option<Type>)
        ensures
            r == Type::spec_from_u16(c),
    {
        match c {
            1 => Some(Type::BYTE),
            2 => Some(Type::ASCII),
            3 => Some(Type::SHORT),
            4 => Some(Type::LONG),
            5 => Some(Type::RATIONAL),
            6 => Some(Type::SBYTE),
            7 => Some(Type::UNDEFINED),
            8 => Some(Type::SSHORT),
            9 => Some(Type::SLONG),
            10 => Some(Type::SRATIONAL),
            11 => Some(Type::FLOAT),
            12 => Some(Type::DOUBLE),
            13 => Some(Type::IFD),
            16 => Some(Type::LONG8),
            17 => Some(Type::SLONG8),
            18 => Some(Type::IFD8),
            _ => None,
        }
    }

    /// The code of this value.
    pub fn to_u16(&self) -> (r: u16)
        ensures
            r == self.spec_to_u16(),
    {
        match self {
            Type::BYTE => 1,
            Type::ASCII => 2,
            Type::SHORT => 3,
            Type::LONG => 4,
            Type::RATIONAL => 5,
            Type::SBYTE => 6,
            Type::UNDEFINED => 7,
            Type::SSHORT => 8,
            Type::SLONG => 9,
            Type::SRATIONAL => 10,
            Type::FLOAT => 11,
            Type::DOUBLE => 12,
            Type::IFD => 13,
            Type::LONG8 => 16,
            Type::SLONG8 => 17,
            Type::IFD8 => 18,
        }
    }

}

impl Type {
    /// Bytes taken by one element of this type.
    pub open spec fn spec_size(self) -> nat {
        match self {
            Type::BYTE => 1,
            Type::ASCII => 1,
            Type::SHORT => 2,
            Type::LONG => 4,
            Type::RATIONAL => 8,
            Type::SBYTE => 1,
            Type::UNDEFINED => 1,
            Type::SSHORT => 2,
            Type::SLONG => 4,
            Type::SRATIONAL => 8,
            Type::FLOAT => 4,
            Type::DOUBLE => 8,
            Type::IFD => 4,
            Type::LONG8 => 8,
            Type::SLONG8 => 8,
            Type::IFD8 => 8,
        }
    }

    /// Bytes taken by one element of this type.
    pub fn size(&self) -> (r: u64)
        ensures
            r as nat == self.spec_size(),
            1 <= r <= 8,
    {
        match self {
            Type::BYTE => 1,
            Type::ASCII => 1,
            Type::SHORT => 2,
            Type::LONG => 4,
            Type::RATIONAL => 8,
            Type::SBYTE => 1,
            Type::UNDEFINED => 1,
            Type::SSHORT => 2,
            Type::SLONG => 4,
            Type::SRATIONAL => 8,
            Type::FLOAT => 4,
            Type::DOUBLE => 8,
            Type::IFD => 4,
            Type::LONG8 => 8,
            Type::SLONG8 => 8,
            Type::IFD8 => 8,
        }
    }
}

/// The compression scheme of the image data.
#[derive(Debug, Clone, Copy, PartialEq, Eq, Hash, Structural)]
pub enum CompressionMethod {
    Uncompressed,
    Huffman,
    Fax3,
    Fax4,
    LZW,
    JPEG,
    ModernJPEG,
    Deflate,
    OldDeflate,
    PackBits,
    /// A code that has no name here.
    Unknown(u16),
}

impl CompressionMethod {
    /// The the compression scheme of the image data with code `c`.
    pub open spec fn spec_from_u16(c: u16) -> CompressionMethod {
        match c {
            1 => CompressionMethod::Uncompressed,
            2 => CompressionMethod::Huffman,
            3 => CompressionMethod::Fax3,
            4 => CompressionMethod::Fax4,
            5 => CompressionMethod::LZW,
            6 => CompressionMethod::JPEG,
            7 => CompressionMethod::ModernJPEG,
            8 => CompressionMethod::Deflate,
            32946 => CompressionMethod::OldDeflate,
            32773 => CompressionMethod::PackBits,
            _ => CompressionMethod::Unknown(c),
        }
    }

    /// The code of this value.
    pub open spec fn spec_to_u16(self) -> u16 {
        match self {
            CompressionMethod::Uncompressed => 1,
            CompressionMethod::Huffman => 2,
            CompressionMethod::Fax3 => 3,
            CompressionMethod::Fax4 => 4,
            CompressionMethod::LZW => 5,
            CompressionMethod::JPEG => 6,
            CompressionMethod::ModernJPEG => 7,
            CompressionMethod::Deflate => 8,
            CompressionMethod::OldDeflate => 32946,
            CompressionMethod::PackBits => 32773,
            CompressionMethod::Unknown(c) => c,
        }
    }

    /// Maps a code to its value; codes without a name give `Unknown`.
    pub fn from_u16_exhaustive(c: u16) -> (r: CompressionMethod)
        ensures
            r == CompressionMethod::spec_from_u16(c),
    {
        match c {
            1 => CompressionMethod::Uncompressed,
            2 => CompressionMethod::Huffman,
            3 => CompressionMethod::Fax3,
            4 => CompressionMethod::Fax4,
            5 => CompressionMethod::LZW,
            6 => CompressionMethod::JPEG,
            7 => CompressionMethod::ModernJPEG,
            8 => CompressionMethod::Deflate,
            32946 => CompressionMethod::OldDeflate,
            32773 => CompressionMethod::PackBits,
            _ => CompressionMethod::Unknown(c),
        }
    }

    /// The code of this value.
    pub fn to_u16(&self) -> (r: u16)
        ensures
            r == self.spec_to_u16(),
    {
        match self {
            CompressionMethod::Uncompressed => 1,
            CompressionMethod::Huffman => 2,
            CompressionMethod::Fax3 => 3,
            CompressionMethod::Fax4 => 4,
            CompressionMethod::LZW => 5,
            CompressionMethod::JPEG => 6,
            CompressionMethod::ModernJPEG => 7,
            CompressionMethod::Deflate => 8,
            CompressionMethod::OldDeflate => 32946,
            CompressionMethod::PackBits => 32773,
            CompressionMethod::Unknown(c) => *c,
        }
    }

}

/// The color space of the image data.
#[derive(Debug, Clone, Copy, PartialEq, Eq, Hash, Structural)]
pub enum PhotometricInterpretation {
    WhiteIsZero,
    BlackIsZero,
    RGB,
    RGBPalette,
    TransparencyMask,
    CMYK,
    YCbCr,
    CIELab,
}

impl PhotometricInterpretation {
    /// The value with code `c`, if it has one.
    pub open spec fn spec_from_u16(c: u16) -> Option<PhotometricInterpretation> {
        match c {
            0 => Some(PhotometricInterpretation::WhiteIsZero),
            1 => Some(PhotometricInterpretation::BlackIsZero),
            2 => Some(PhotometricInterpretation::RGB),
            3 => Some(PhotometricInterpretation::RGBPalette),
            4 => Some(PhotometricInterpretation::TransparencyMask),
            5 => Some(PhotometricInterpretation::CMYK),
            6 => Some(PhotometricInterpretation::YCbCr),
            8 => Some(PhotometricInterpretation::CIELab),
            _ => None,
        }
    }

    /// The code of this value.
    pub open spec fn spec_to_u16(self) -> u16 {
        match self {
            PhotometricInterpretation::WhiteIsZero => 0,
            PhotometricInterpretation::BlackIsZero => 1,
            PhotometricInterpretation::RGB => 2,
            PhotometricInterpretation::RGBPalette => 3,
            PhotometricInterpretation::TransparencyMask => 4,
            PhotometricInterpretation::CMYK => 5,
            PhotometricInterpretation::YCbCr => 6,
            PhotometricInterpretation::CIELab => 8,
        }
    }

    /// Maps a code to its value; `None` for a code without one.
    pub fn from_u16(c: u16) -> (r: Option<PhotometricInterpretation>)
        ensures
            r == PhotometricInterpretation::spec_from_u16(c),
    {
        match c {
            0 => Some(PhotometricInterpretation::WhiteIsZero),
            1 => Some(PhotometricInterpretation::BlackIsZero),
            2 => Some(PhotometricInterpretation::RGB),
            3 => Some(PhotometricInterpretation::RGBPalette),
            4 => Some(PhotometricInterpretation::TransparencyMask),
            5 => Some(PhotometricInterpretation::CMYK),
            6 => Some(PhotometricInterpretation::YCbCr),
            8 => Some(PhotometricInterpretation::CIELab),
            _ => None,
        }
    }

    /// The code of this value.
    pub fn to_u16(&self) -> (r: u16)
        ensures
            r == self.spec_to_u16(),
    {
        match self {
            PhotometricInterpretation::WhiteIsZero => 0,
            PhotometricInterpretation::BlackIsZero => 1,
            PhotometricInterpretation::RGB => 2,
            PhotometricInterpretation::RGBPalette => 3,
            PhotometricInterpretation::TransparencyMask => 4,
            PhotometricInterpretation::CMYK => 5,
            PhotometricInterpretation::YCbCr => 6,
            PhotometricInterpretation::CIELab => 8,
        }
    }

}

/// How the samples of each pixel are stored.
#[derive(Debug, Clone, Copy, PartialEq, Eq, Hash, Structural)]
pub enum PlanarConfiguration {
    Chunky,
    Planar,
}

impl PlanarConfiguration {
    /// The value with code `c`, if it has one.
    pub open spec fn spec_from_u16(c: u16) -> Option<PlanarConfiguration> {
        match c {
            1 => Some(PlanarConfiguration::Chunky),
            2 => Some(PlanarConfiguration::Planar),
            _ => None,
        }
    }

    /// The code of this value.
    pub open spec fn spec_to_u16(self) -> u16 {
        match self {
            PlanarConfiguration::Chunky => 1,
            PlanarConfiguration::Planar => 2,
        }
    }

    /// Maps a code to its value; `None` for a code without one.
    pub fn from_u16(c: u16) -> (r: Option<PlanarConfiguration>)
        ensures
            r == PlanarConfiguration::spec_from_u16(c),
    {
        match c {
            1 => Some(PlanarConfiguration::Chunky),
            2 => Some(PlanarConfiguration::Planar),
            _ => None,
        }
    }

    /// The code of this value.
    pub fn to_u16(&self) -> (r: u16)
        ensures
            r == self.spec_to_u16(),
    {
        match self {
            PlanarConfiguration::Chunky => 1,
            PlanarConfiguration::Planar => 2,
        }
    }

}

/// The predictor applied to the image data before compression.
#[derive(Debug, Clone, Copy, PartialEq, Eq, Hash, Structural)]
pub enum Predictor {
    NoPredictor,
    Horizontal,
    FloatingPoint,
}

impl Predictor {
    /// The value with code `c`, if it has one.
    pub open spec fn spec_from_u16(c: u16) -> Option<Predictor> {
        match c {
            1 => Some(Predictor::NoPredictor),
            2 => Some(Predictor::Horizontal),
            3 => Some(Predictor::FloatingPoint),
            _ => None,
        }
    }

    /// The code of this value.
    pub open spec fn spec_to_u16(self) -> u16 {
        match self {
            Predictor::NoPredictor => 1,
            Predictor::Horizontal => 2,
            Predictor::FloatingPoint => 3,
        }
    }

    /// Maps a code to its value; `None` for a code without one.
    pub fn from_u16(c: u16) -> (r: Option<Predictor>)
        ensures
            r == Predictor::spec_from_u16(c),
    {
        match c {
            1 => Some(Predictor::NoPredictor),
            2 => Some(Predictor::Horizontal),
            3 => Some(Predictor::FloatingPoint),
            _ => None,
        }
    }

    /// The code of this value.
    pub fn to_u16(&self) -> (r: u16)
        ensures
            r == self.spec_to_u16(),
    {
        match self {
            Predictor::NoPredictor => 1,
            Predictor::Horizontal => 2,
            Predictor::FloatingPoint => 3,
        }
    }

}

/// The unit of XResolution and YResolution.
#[derive(Debug, Clone, Copy, PartialEq, Eq, Hash, Structural)]
pub enum ResolutionUnit {
    NoUnit,
    Inch,
    Centimeter,
}

impl ResolutionUnit {
    /// The value with code `c`, if it has one.
    pub open spec fn spec_from_u16(c: u16) -> Option<ResolutionUnit> {
        match c {
            1 => Some(ResolutionUnit::NoUnit),
            2 => Some(ResolutionUnit::Inch),
            3 => Some(ResolutionUnit::Centimeter),
            _ => None,
        }
    }

    /// The code of this value.
    pub open spec fn spec_to_u16(self) -> u16 {
        match self {
            ResolutionUnit::NoUnit => 1,
            ResolutionUnit::Inch => 2,
            ResolutionUnit::Centimeter => 3,
        }
    }

    /// Maps a code to its value; `None` for a code without one.
    pub fn from_u16(c: u16) -> (r: Option<ResolutionUnit>)
        ensures
            r == ResolutionUnit::spec_from_u16(c),
    {
        match c {
            1 => Some(ResolutionUnit::NoUnit),
            2 => Some(ResolutionUnit::Inch),
            3 => Some(ResolutionUnit::Centimeter),
            _ => None,
        }
    }

    /// The code of this value.
    pub fn to_u16(&self) -> (r: u16)
        ensures
            r == self.spec_to_u16(),
    {
        match self {
            ResolutionUnit::NoUnit => 1,
            ResolutionUnit::Inch => 2,
            ResolutionUnit::Centimeter => 3,
        }
    }

}

/// How to interpret each data sample in a pixel.
#[derive(Debug, Clone, Copy, PartialEq, Eq, Hash, Structural)]
pub enum SampleFormat {
    Uint,
    Int,
    IEEEFP,
    Void,
    /// A code that has no name here.
    Unknown(u16),
}

impl SampleFormat {
    /// The how to interpret each data sample in a pixel with code `c`.
    pub open spec fn spec_from_u16(c: u16) -> SampleFormat {
        match c {
            1 => SampleFormat::Uint,
            2 => SampleFormat::Int,
            3 => SampleFormat::IEEEFP,
            4 => SampleFormat::Void,
            _ => SampleFormat::Unknown(c),
        }
    }

    /// The code of this value.
    pub open spec fn spec_to_u16(self) -> u16 {
        match self {
            SampleFormat::Uint => 1,
            SampleFormat::Int => 2,
            SampleFormat::IEEEFP => 3,
            SampleFormat::Void => 4,
            SampleFormat::Unknown(c) => c,
        }
    }

    /// Maps a code to its value; codes without a name give `Unknown`.
    pub fn from_u16_exhaustive(c: u16) -> (r: SampleFormat)
        ensures
            r == SampleFormat::spec_from_u16(c),
    {
        match c {
            1 => SampleFormat::Uint,
            2 => SampleFormat::Int,
            3 => SampleFormat::IEEEFP,
            4 => SampleFormat::Void,
            _ => SampleFormat::Unknown(c),
        }
    }

    /// The code of this value.
    pub fn to_u16(&self) -> (r: u16)
        ensures
            r == self.spec_to_u16(),
    {
        match self {
            SampleFormat::Uint => 1,
            SampleFormat::Int => 2,
            SampleFormat::IEEEFP => 3,
            SampleFormat::Void => 4,
            SampleFormat::Unknown(c) => *c,
        }
    }

}

} // verus!
