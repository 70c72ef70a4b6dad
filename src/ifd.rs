//! The typed metadata record of one Image File Directory.
use vstd::prelude::*;

use crate::endian::{slice_to_vec, Endianness};
use crate::predictor::{div_ceil, predictor_info_error, PredictorInfo};
use crate::tile::Tile;
use crate::error::{
    format_err, unsupported_err, AsyncTiffError, AsyncTiffResult, TiffError, TiffFormatError,
    TiffUnsupportedError, UsageError,
};
use crate::geo_key_directory::{geo_valid, GeoKeyDirectory};
use crate::tags::{
    CompressionMethod, PhotometricInterpretation, PlanarConfiguration, Predictor, ResolutionUnit,
    SampleFormat, Tag,
};
use crate::value::{as_u16, as_u32, f64_bits_list, u16_list, u64_list, u8_list, Value, ValueView};

verus! {

/// The value of the last entry of tag `t` among the first `n` entries of `s`.
pub open spec fn last_value(s: Seq<(Tag, ValueView)>, n: int, t: Tag) -> Option<ValueView>
    decreases n,
{
    if n <= 0 {
        None
    } else if s[n - 1].0 == t {
        Some(s[n - 1].1)
    } else {
        last_value(s, n - 1, t)
    }
}

/// The entries of tags without a name among the first `n` entries of `s`, in order.
pub open spec fn unknown_entries(s: Seq<(Tag, ValueView)>, n: int) -> Seq<(Tag, ValueView)>
    decreases n,
{
    if n <= 0 {
        Seq::empty()
    } else if s[n - 1].0 is Unknown {
        unknown_entries(s, n - 1).push(s[n - 1])
    } else {
        unknown_entries(s, n - 1)
    }
}

proof fn lemma_last_value_step(s: Seq<(Tag, ValueView)>, n: int)
    requires
        0 <= n < s.len(),
    ensures
        forall|t: Tag| #[trigger] last_value(s, n + 1, t) == if s[n].0 == t { Some(s[n].1) } else { last_value(s, n, t) },
{
}

/// The characters of an ASCII value.
pub open spec fn ascii_of(v: ValueView) -> Option<Seq<char>> {
    match v {
        ValueView::Ascii(c) => Some(c),
        _ => None,
    }
}

/// The numerator and denominator of a RATIONAL value.
pub open spec fn rational_of(v: ValueView) -> Option<(u32, u32)> {
    match v {
        ValueView::Rational(n, d) => Some((n, d)),
        _ => None,
    }
}

/// The view of an optional vector.
pub open spec fn opt_seq<T>(o: Option<Vec<T>>) -> Option<Seq<T>> {
    match o {
        Some(v) => Some(v@),
        None => None,
    }
}

/// The view of an optional string.
pub open spec fn opt_str(o: Option<String>) -> Option<Seq<char>> {
    match o {
        Some(v) => Some(v@),
        None => None,
    }
}

/// Maps sample format codes to sample formats.
fn sample_formats(codes: &Vec<u16>) -> (r: Vec<SampleFormat>)
    ensures
        r@ == codes@.map_values(|x: u16| SampleFormat::spec_from_u16(x)),
{
    let mut r: Vec<SampleFormat> = Vec::new();
    let mut i: usize = 0;
    while i < codes.len()
        invariant
            i <= codes@.len(),
            r@ == codes@.subrange(0, i as int).map_values(|x: u16| SampleFormat::spec_from_u16(x)),
        decreases codes@.len() - i,
    {
        r.push(SampleFormat::from_u16_exhaustive(codes[i]));
        i += 1;
        proof {
            assert(r@ =~= codes@.subrange(0, i as int).map_values(|x: u16| SampleFormat::spec_from_u16(x)));
        }
    }
    proof {
        assert(codes@.subrange(0, i as int) =~= codes@);
    }
    r
}

/// The value of the last entry of tag `t` among the first `n` entries, read as
/// u32; `None` where there is no such entry or it cannot be read so.
pub open spec fn tag_u32(s: Seq<(Tag, ValueView)>, n: int, t: Tag) -> Option<u32> {
    match last_value(s, n, t) {
        Some(v) => as_u32(v),
        None => None,
    }
}

/// The value of the last entry of tag `t` among the first `n` entries, read as
/// u16; `None` where there is no such entry or it cannot be read so.
pub open spec fn tag_u16(s: Seq<(Tag, ValueView)>, n: int, t: Tag) -> Option<u16> {
    match last_value(s, n, t) {
        Some(v) => as_u16(v),
        None => None,
    }
}

/// The value of the last entry of tag `t` among the first `n` entries, read as
/// u16s; `None` where there is no such entry or it cannot be read so.
pub open spec fn tag_u16s(s: Seq<(Tag, ValueView)>, n: int, t: Tag) -> Option<Seq<u16>> {
    match last_value(s, n, t) {
        Some(v) => u16_list(v),
        None => None,
    }
}

/// The value of the last entry of tag `t` among the first `n` entries, read as
/// u64s; `None` where there is no such entry or it cannot be read so.
pub open spec fn tag_u64s(s: Seq<(Tag, ValueView)>, n: int, t: Tag) -> Option<Seq<u64>> {
    match last_value(s, n, t) {
        Some(v) => u64_list(v),
        None => None,
    }
}

/// The value of the last entry of tag `t` among the first `n` entries, read as
/// u8s; `None` where there is no such entry or it cannot be read so.
pub open spec fn tag_u8s(s: Seq<(Tag, ValueView)>, n: int, t: Tag) -> Option<Seq<u8>> {
    match last_value(s, n, t) {
        Some(v) => u8_list(v),
        None => None,
    }
}

/// The value of the last entry of tag `t` among the first `n` entries, read as
/// f64s; `None` where there is no such entry or it cannot be read so.
pub open spec fn tag_f64s(s: Seq<(Tag, ValueView)>, n: int, t: Tag) -> Option<Seq<u64>> {
    match last_value(s, n, t) {
        Some(v) => f64_bits_list(v),
        None => None,
    }
}

/// The value of the last entry of tag `t` among the first `n` entries, read as
/// string; `None` where there is no such entry or it cannot be read so.
pub open spec fn tag_string(s: Seq<(Tag, ValueView)>, n: int, t: Tag) -> Option<Seq<char>> {
    match last_value(s, n, t) {
        Some(v) => ascii_of(v),
        None => None,
    }
}

/// The value of the last entry of tag `t` among the first `n` entries, read as
/// rational; `None` where there is no such entry or it cannot be read so.
pub open spec fn tag_rational(s: Seq<(Tag, ValueView)>, n: int, t: Tag) -> Option<(u32, u32)> {
    match last_value(s, n, t) {
        Some(v) => rational_of(v),
        None => None,
    }
}

/// The value of the last entry of tag `t` among the first `n` entries, read as
/// compression; `None` where there is no such entry or it cannot be read so.
pub open spec fn tag_compression(s: Seq<(Tag, ValueView)>, n: int, t: Tag) -> Option<CompressionMethod> {
    match last_value(s, n, t) {
        Some(v) => match as_u16(v) { Some(c) => Some(CompressionMethod::spec_from_u16(c)), None => None },
        None => None,
    }
}

/// The value of the last entry of tag `t` among the first `n` entries, read as
/// photometric; `None` where there is no such entry or it cannot be read so.
pub open spec fn tag_photometric(s: Seq<(Tag, ValueView)>, n: int, t: Tag) -> Option<PhotometricInterpretation> {
    match last_value(s, n, t) {
        Some(v) => match as_u16(v) { Some(c) => PhotometricInterpretation::spec_from_u16(c), None => None },
        None => None,
    }
}

/// The value of the last entry of tag `t` among the first `n` entries, read as
/// planar; `None` where there is no such entry or it cannot be read so.
pub open spec fn tag_planar(s: Seq<(Tag, ValueView)>, n: int, t: Tag) -> Option<PlanarConfiguration> {
    match last_value(s, n, t) {
        Some(v) => match as_u16(v) { Some(c) => PlanarConfiguration::spec_from_u16(c), None => None },
        None => None,
    }
}

/// The value of the last entry of tag `t` among the first `n` entries, read as
/// resolution unit; `None` where there is no such entry or it cannot be read so.
pub open spec fn tag_resolution_unit(s: Seq<(Tag, ValueView)>, n: int, t: Tag) -> Option<ResolutionUnit> {
    match last_value(s, n, t) {
        Some(v) => match as_u16(v) { Some(c) => ResolutionUnit::spec_from_u16(c), None => None },
        None => None,
    }
}

/// The value of the last entry of tag `t` among the first `n` entries, read as
/// predictor; `None` where there is no such entry or it cannot be read so.
pub open spec fn tag_predictor(s: Seq<(Tag, ValueView)>, n: int, t: Tag) -> Option<Predictor> {
    match last_value(s, n, t) {
        Some(v) => match as_u16(v) { Some(c) => Predictor::spec_from_u16(c), None => None },
        None => None,
    }
}

/// The value of the last entry of tag `t` among the first `n` entries, read as
/// sample format; `None` where there is no such entry or it cannot be read so.
pub open spec fn tag_sample_format(s: Seq<(Tag, ValueView)>, n: int, t: Tag) -> Option<Seq<SampleFormat>> {
    match last_value(s, n, t) {
        Some(v) => match u16_list(v) { Some(c) => Some(c.map_values(|x: u16| SampleFormat::spec_from_u16(x))), None => None },
        None => None,
    }
}

/// The value of an entry has the type that its tag asks for.
pub open spec fn entry_ok(t: Tag, v: ValueView) -> bool {
    match t {
        Tag::NewSubfileType => as_u32(v) is Some,
        Tag::ImageWidth => as_u32(v) is Some,
        Tag::ImageLength => as_u32(v) is Some,
        Tag::BitsPerSample => u16_list(v) is Some,
        Tag::Compression => as_u16(v) is Some,
        Tag::PhotometricInterpretation => as_u16(v) is Some,
        Tag::DocumentName => ascii_of(v) is Some,
        Tag::ImageDescription => ascii_of(v) is Some,
        Tag::StripOffsets => u64_list(v) is Some,
        Tag::Orientation => as_u16(v) is Some,
        Tag::SamplesPerPixel => as_u16(v) is Some,
        Tag::RowsPerStrip => as_u32(v) is Some,
        Tag::StripByteCounts => u64_list(v) is Some,
        Tag::MinSampleValue => u16_list(v) is Some,
        Tag::MaxSampleValue => u16_list(v) is Some,
        Tag::XResolution => rational_of(v) is Some,
        Tag::YResolution => rational_of(v) is Some,
        Tag::PlanarConfiguration => as_u16(v) is Some,
        Tag::ResolutionUnit => as_u16(v) is Some,
        Tag::Software => ascii_of(v) is Some,
        Tag::DateTime => ascii_of(v) is Some,
        Tag::Artist => ascii_of(v) is Some,
        Tag::HostComputer => ascii_of(v) is Some,
        Tag::Predictor => as_u16(v) is Some,
        Tag::ColorMap => u16_list(v) is Some,
        Tag::TileWidth => as_u32(v) is Some,
        Tag::TileLength => as_u32(v) is Some,
        Tag::TileOffsets => u64_list(v) is Some,
        Tag::TileByteCounts => u64_list(v) is Some,
        Tag::ExtraSamples => u16_list(v) is Some,
        Tag::SampleFormat => u16_list(v) is Some,
        Tag::JPEGTables => u8_list(v) is Some,
        Tag::Copyright => ascii_of(v) is Some,
        Tag::GeoKeyDirectoryTag => u16_list(v) is Some,
        Tag::ModelPixelScaleTag => f64_bits_list(v) is Some,
        Tag::ModelTiepointTag => f64_bits_list(v) is Some,
        Tag::GeoAsciiParamsTag => ascii_of(v) is Some,
        Tag::GeoDoubleParamsTag => f64_bits_list(v) is Some,
        Tag::Unknown(_) => true,
    }
}

/// The fields gathered from the entries of an IFD, before its invariants are checked.
struct TagFields {
    new_subfile_type: Option<u32>,
    image_width: Option<u32>,
    image_height: Option<u32>,
    bits_per_sample: Option<Vec<u16>>,
    compression: Option<CompressionMethod>,
    photometric_interpretation: Option<PhotometricInterpretation>,
    document_name: Option<String>,
    image_description: Option<String>,
    strip_offsets: Option<Vec<u64>>,
    orientation: Option<u16>,
    samples_per_pixel: Option<u16>,
    rows_per_strip: Option<u32>,
    strip_byte_counts: Option<Vec<u64>>,
    min_sample_value: Option<Vec<u16>>,
    max_sample_value: Option<Vec<u16>>,
    x_resolution: Option<(u32, u32)>,
    y_resolution: Option<(u32, u32)>,
    planar_configuration: Option<PlanarConfiguration>,
    resolution_unit: Option<ResolutionUnit>,
    software: Option<String>,
    date_time: Option<String>,
    artist: Option<String>,
    host_computer: Option<String>,
    predictor: Option<Predictor>,
    color_map: Option<Vec<u16>>,
    tile_width: Option<u32>,
    tile_height: Option<u32>,
    tile_offsets: Option<Vec<u64>>,
    tile_byte_counts: Option<Vec<u64>>,
    extra_samples: Option<Vec<u16>>,
    sample_format: Option<Vec<SampleFormat>>,
    jpeg_tables: Option<Vec<u8>>,
    copyright: Option<String>,
    geo_key_directory_data: Option<Vec<u16>>,
    model_pixel_scale: Option<Vec<u64>>,
    model_tiepoint: Option<Vec<u64>>,
    geo_ascii_params: Option<String>,
    geo_double_params: Option<Vec<u64>>,
    other_tags: Vec<(Tag, Value)>,
}

impl TagFields {
    /// Each field holds what the first `n` entries of `s` give for its tag.
    spec fn gathered(&self, s: Seq<(Tag, ValueView)>, n: int) -> bool {
        &&& self.new_subfile_type == tag_u32(s, n, Tag::NewSubfileType)
        &&& self.image_width == tag_u32(s, n, Tag::ImageWidth)
        &&& self.image_height == tag_u32(s, n, Tag::ImageLength)
        &&& opt_seq(self.bits_per_sample) == tag_u16s(s, n, Tag::BitsPerSample)
        &&& self.compression == tag_compression(s, n, Tag::Compression)
        &&& self.photometric_interpretation == tag_photometric(s, n, Tag::PhotometricInterpretation)
        &&& opt_str(self.document_name) == tag_string(s, n, Tag::DocumentName)
        &&& opt_str(self.image_description) == tag_string(s, n, Tag::ImageDescription)
        &&& opt_seq(self.strip_offsets) == tag_u64s(s, n, Tag::StripOffsets)
        &&& self.orientation == tag_u16(s, n, Tag::Orientation)
        &&& self.samples_per_pixel == tag_u16(s, n, Tag::SamplesPerPixel)
        &&& self.rows_per_strip == tag_u32(s, n, Tag::RowsPerStrip)
        &&& opt_seq(self.strip_byte_counts) == tag_u64s(s, n, Tag::StripByteCounts)
        &&& opt_seq(self.min_sample_value) == tag_u16s(s, n, Tag::MinSampleValue)
        &&& opt_seq(self.max_sample_value) == tag_u16s(s, n, Tag::MaxSampleValue)
        &&& self.x_resolution == tag_rational(s, n, Tag::XResolution)
        &&& self.y_resolution == tag_rational(s, n, Tag::YResolution)
        &&& self.planar_configuration == tag_planar(s, n, Tag::PlanarConfiguration)
        &&& self.resolution_unit == tag_resolution_unit(s, n, Tag::ResolutionUnit)
        &&& opt_str(self.software) == tag_string(s, n, Tag::Software)
        &&& opt_str(self.date_time) == tag_string(s, n, Tag::DateTime)
        &&& opt_str(self.artist) == tag_string(s, n, Tag::Artist)
        &&& opt_str(self.host_computer) == tag_string(s, n, Tag::HostComputer)
        &&& self.predictor == tag_predictor(s, n, Tag::Predictor)
        &&& opt_seq(self.color_map) == tag_u16s(s, n, Tag::ColorMap)
        &&& self.tile_width == tag_u32(s, n, Tag::TileWidth)
        &&& self.tile_height == tag_u32(s, n, Tag::TileLength)
        &&& opt_seq(self.tile_offsets) == tag_u64s(s, n, Tag::TileOffsets)
        &&& opt_seq(self.tile_byte_counts) == tag_u64s(s, n, Tag::TileByteCounts)
        &&& opt_seq(self.extra_samples) == tag_u16s(s, n, Tag::ExtraSamples)
        &&& opt_seq(self.sample_format) == tag_sample_format(s, n, Tag::SampleFormat)
        &&& opt_seq(self.jpeg_tables) == tag_u8s(s, n, Tag::JPEGTables)
        &&& opt_str(self.copyright) == tag_string(s, n, Tag::Copyright)
        &&& opt_seq(self.geo_key_directory_data) == tag_u16s(s, n, Tag::GeoKeyDirectoryTag)
        &&& opt_seq(self.model_pixel_scale) == tag_f64s(s, n, Tag::ModelPixelScaleTag)
        &&& opt_seq(self.model_tiepoint) == tag_f64s(s, n, Tag::ModelTiepointTag)
        &&& opt_str(self.geo_ascii_params) == tag_string(s, n, Tag::GeoAsciiParamsTag)
        &&& opt_seq(self.geo_double_params) == tag_f64s(s, n, Tag::GeoDoubleParamsTag)
        &&& self.other_tags@.map_values(|p: (Tag, Value)| (p.0, p.1@)) == unknown_entries(s, n)
    }

    fn new() -> (r: TagFields)
        ensures
            forall|s: Seq<(Tag, ValueView)>| r.gathered(s, 0),
    {
        let r = TagFields {
            new_subfile_type: None,
            image_width: None,
            image_height: None,
            bits_per_sample: None,
            compression: None,
            photometric_interpretation: None,
            document_name: None,
            image_description: None,
            strip_offsets: None,
            orientation: None,
            samples_per_pixel: None,
            rows_per_strip: None,
            strip_byte_counts: None,
            min_sample_value: None,
            max_sample_value: None,
            x_resolution: None,
            y_resolution: None,
            planar_configuration: None,
            resolution_unit: None,
            software: None,
            date_time: None,
            artist: None,
            host_computer: None,
            predictor: None,
            color_map: None,
            tile_width: None,
            tile_height: None,
            tile_offsets: None,
            tile_byte_counts: None,
            extra_samples: None,
            sample_format: None,
            jpeg_tables: None,
            copyright: None,
            geo_key_directory_data: None,
            model_pixel_scale: None,
            model_tiepoint: None,
            geo_ascii_params: None,
            geo_double_params: None,
            other_tags: Vec::new(),
        };
        proof {
            assert forall|s: Seq<(Tag, ValueView)>| r.gathered(s, 0) by {
                assert(r.other_tags@.map_values(|p: (Tag, Value)| (p.0, p.1@)) =~= unknown_entries(s, 0));
            }
        }
        r
    }

    /// Takes in entry `n` of `s`.
    #[verifier::rlimit(100)]
    fn absorb(&mut self, tag: Tag, value: Value, Ghost(s): Ghost<Seq<(Tag, ValueView)>>, Ghost(n): Ghost<int>) -> (r: Result<(), Tag>)
        requires
            0 <= n < s.len(),
            old(self).gathered(s, n),
            s[n] == (tag, value@),
        ensures
            r is Ok ==> entry_ok(tag, value@) && final(self).gathered(s, n + 1),
            r is Err ==> !entry_ok(tag, value@) && r == Err::<(), Tag>(tag),
    {
        proof {
            lemma_last_value_step(s, n);
        }
        match tag {
            Tag::NewSubfileType => match value.into_u32() {
                Some(x) => {
                    self.new_subfile_type = Some(x);
                },
                None => {
                    return Err(tag);
                },
            },
            Tag::ImageWidth => match value.into_u32() {
                Some(x) => {
                    self.image_width = Some(x);
                },
                None => {
                    return Err(tag);
                },
            },
            Tag::ImageLength => match value.into_u32() {
                Some(x) => {
                    self.image_height = Some(x);
                },
                None => {
                    return Err(tag);
                },
            },
            Tag::BitsPerSample => match value.into_u16_vec() {
                Some(x) => {
                    self.bits_per_sample = Some(x);
                },
                None => {
                    return Err(tag);
                },
            },
            Tag::Compression => match match value.into_u16() {
                    Some(c) => Some(Some(CompressionMethod::from_u16_exhaustive(c))),
                    None => None,
                } {
                Some(x) => {
                    self.compression = x;
                },
                None => {
                    return Err(tag);
                },
            },
            Tag::PhotometricInterpretation => match match value.into_u16() {
                    Some(c) => Some(PhotometricInterpretation::from_u16(c)),
                    None => None,
                } {
                Some(x) => {
                    self.photometric_interpretation = x;
                },
                None => {
                    return Err(tag);
                },
            },
            Tag::DocumentName => match value.into_string() {
                Some(x) => {
                    self.document_name = Some(x);
                },
                None => {
                    return Err(tag);
                },
            },
            Tag::ImageDescription => match value.into_string() {
                Some(x) => {
                    self.image_description = Some(x);
                },
                None => {
                    return Err(tag);
                },
            },
            Tag::StripOffsets => match value.into_u64_vec() {
                Some(x) => {
                    self.strip_offsets = Some(x);
                },
                None => {
                    return Err(tag);
                },
            },
            Tag::Orientation => match value.into_u16() {
                Some(x) => {
                    self.orientation = Some(x);
                },
                None => {
                    return Err(tag);
                },
            },
            Tag::SamplesPerPixel => match value.into_u16() {
                Some(x) => {
                    self.samples_per_pixel = Some(x);
                },
                None => {
                    return Err(tag);
                },
            },
            Tag::RowsPerStrip => match value.into_u32() {
                Some(x) => {
                    self.rows_per_strip = Some(x);
                },
                None => {
                    return Err(tag);
                },
            },
            Tag::StripByteCounts => match value.into_u64_vec() {
                Some(x) => {
                    self.strip_byte_counts = Some(x);
                },
                None => {
                    return Err(tag);
                },
            },
            Tag::MinSampleValue => match value.into_u16_vec() {
                Some(x) => {
                    self.min_sample_value = Some(x);
                },
                None => {
                    return Err(tag);
                },
            },
            Tag::MaxSampleValue => match value.into_u16_vec() {
                Some(x) => {
                    self.max_sample_value = Some(x);
                },
                None => {
                    return Err(tag);
                },
            },
            Tag::XResolution => match value.into_rational() {
                Some(x) => {
                    self.x_resolution = Some(x);
                },
                None => {
                    return Err(tag);
                },
            },
            Tag::YResolution => match value.into_rational() {
                Some(x) => {
                    self.y_resolution = Some(x);
                },
                None => {
                    return Err(tag);
                },
            },
            Tag::PlanarConfiguration => match match value.into_u16() {
                    Some(c) => Some(PlanarConfiguration::from_u16(c)),
                    None => None,
                } {
                Some(x) => {
                    self.planar_configuration = x;
                },
                None => {
                    return Err(tag);
                },
            },
            Tag::ResolutionUnit => match match value.into_u16() {
                    Some(c) => Some(ResolutionUnit::from_u16(c)),
                    None => None,
                } {
                Some(x) => {
                    self.resolution_unit = x;
                },
                None => {
                    return Err(tag);
                },
            },
            Tag::Software => match value.into_string() {
                Some(x) => {
                    self.software = Some(x);
                },
                None => {
                    return Err(tag);
                },
            },
            Tag::DateTime => match value.into_string() {
                Some(x) => {
                    self.date_time = Some(x);
                },
                None => {
                    return Err(tag);
                },
            },
            Tag::Artist => match value.into_string() {
                Some(x) => {
                    self.artist = Some(x);
                },
                None => {
                    return Err(tag);
                },
            },
            Tag::HostComputer => match value.into_string() {
                Some(x) => {
                    self.host_computer = Some(x);
                },
                None => {
                    return Err(tag);
                },
            },
            Tag::Predictor => match match value.into_u16() {
                    Some(c) => Some(Predictor::from_u16(c)),
                    None => None,
                } {
                Some(x) => {
                    self.predictor = x;
                },
                None => {
                    return Err(tag);
                },
            },
            Tag::ColorMap => match value.into_u16_vec() {
                Some(x) => {
                    self.color_map = Some(x);
                },
                None => {
                    return Err(tag);
                },
            },
            Tag::TileWidth => match value.into_u32() {
                Some(x) => {
                    self.tile_width = Some(x);
                },
                None => {
                    return Err(tag);
                },
            },
            Tag::TileLength => match value.into_u32() {
                Some(x) => {
                    self.tile_height = Some(x);
                },
                None => {
                    return Err(tag);
                },
            },
            Tag::TileOffsets => match value.into_u64_vec() {
                Some(x) => {
                    self.tile_offsets = Some(x);
                },
                None => {
                    return Err(tag);
                },
            },
            Tag::TileByteCounts => match value.into_u64_vec() {
                Some(x) => {
                    self.tile_byte_counts = Some(x);
                },
                None => {
                    return Err(tag);
                },
            },
            Tag::ExtraSamples => match value.into_u16_vec() {
                Some(x) => {
                    self.extra_samples = Some(x);
                },
                None => {
                    return Err(tag);
                },
            },
            Tag::SampleFormat => match match value.into_u16_vec() {
                    Some(c) => Some(Some(sample_formats(&c))),
                    None => None,
                } {
                Some(x) => {
                    self.sample_format = x;
                },
                None => {
                    return Err(tag);
                },
            },
            Tag::JPEGTables => match value.into_u8_vec() {
                Some(x) => {
                    self.jpeg_tables = Some(x);
                },
                None => {
                    return Err(tag);
                },
            },
            Tag::Copyright => match value.into_string() {
                Some(x) => {
                    self.copyright = Some(x);
                },
                None => {
                    return Err(tag);
                },
            },
            Tag::GeoKeyDirectoryTag => match value.into_u16_vec() {
                Some(x) => {
                    self.geo_key_directory_data = Some(x);
                },
                None => {
                    return Err(tag);
                },
            },
            Tag::ModelPixelScaleTag => match value.into_f64_bits_vec() {
                Some(x) => {
                    self.model_pixel_scale = Some(x);
                },
                None => {
                    return Err(tag);
                },
            },
            Tag::ModelTiepointTag => match value.into_f64_bits_vec() {
                Some(x) => {
                    self.model_tiepoint = Some(x);
                },
                None => {
                    return Err(tag);
                },
            },
            Tag::GeoAsciiParamsTag => match value.into_string() {
                Some(x) => {
                    self.geo_ascii_params = Some(x);
                },
                None => {
                    return Err(tag);
                },
            },
            Tag::GeoDoubleParamsTag => match value.into_f64_bits_vec() {
                Some(x) => {
                    self.geo_double_params = Some(x);
                },
                None => {
                    return Err(tag);
                },
            },
            Tag::Unknown(_) => {
                self.other_tags.push((tag, value));
                proof {
                    assert(self.other_tags@.map_values(|p: (Tag, Value)| (p.0, p.1@)) =~= unknown_entries(s, n + 1));
                }
            },
        }
        Ok(())
    }
}

/// A typed record of the well-known tags of one IFD, with the other tags kept as they are.
///
/// Floating-point values are held as their IEEE 754 bit patterns, and resolutions as the
/// numerator and denominator that the file holds.
#[derive(Debug)]
pub struct ImageFileDirectory {
    pub endianness: Endianness,
    pub new_subfile_type: Option<u32>,
    pub image_width: u32,
    pub image_height: u32,
    pub bits_per_sample: Vec<u16>,
    pub compression: CompressionMethod,
    pub photometric_interpretation: PhotometricInterpretation,
    pub document_name: Option<String>,
    pub image_description: Option<String>,
    pub strip_offsets: Option<Vec<u64>>,
    pub orientation: Option<u16>,
    pub samples_per_pixel: u16,
    pub rows_per_strip: Option<u32>,
    pub strip_byte_counts: Option<Vec<u64>>,
    pub min_sample_value: Option<Vec<u16>>,
    pub max_sample_value: Option<Vec<u16>>,
    pub x_resolution: Option<(u32, u32)>,
    pub y_resolution: Option<(u32, u32)>,
    pub planar_configuration: PlanarConfiguration,
    pub resolution_unit: Option<ResolutionUnit>,
    pub software: Option<String>,
    pub date_time: Option<String>,
    pub artist: Option<String>,
    pub host_computer: Option<String>,
    pub predictor: Option<Predictor>,
    pub color_map: Option<Vec<u16>>,
    pub tile_width: Option<u32>,
    pub tile_height: Option<u32>,
    pub tile_offsets: Option<Vec<u64>>,
    pub tile_byte_counts: Option<Vec<u64>>,
    pub extra_samples: Option<Vec<u16>>,
    pub sample_format: Vec<SampleFormat>,
    pub jpeg_tables: Option<Vec<u8>>,
    pub copyright: Option<String>,
    pub model_pixel_scale: Option<Vec<u64>>,
    pub model_tiepoint: Option<Vec<u64>>,
    pub geo_key_directory: Option<GeoKeyDirectory>,
    pub other_tags: Vec<(Tag, Value)>,
    pub next_ifd_offset: Option<u64>,
}

impl ImageFileDirectory {
    /// This record holds what the entries `s` give, read from a file of byte order
    /// `endianness`, with `next` the offset of the following IFD.
    pub open spec fn describes(&self, s: Seq<(Tag, ValueView)>, endianness: Endianness, next: Option<u64>) -> bool {
        let n = s.len() as int;
        &&& self.endianness == endianness
        &&& self.next_ifd_offset == next
        &&& Some(self.image_width) == tag_u32(s, n, Tag::ImageWidth)
        &&& Some(self.image_height) == tag_u32(s, n, Tag::ImageLength)
        &&& Some(self.bits_per_sample@) == tag_u16s(s, n, Tag::BitsPerSample)
        &&& Some(self.photometric_interpretation) == tag_photometric(s, n, Tag::PhotometricInterpretation)
        &&& Some(self.samples_per_pixel) == tag_u16(s, n, Tag::SamplesPerPixel)
        &&& self.compression == match tag_compression(s, n, Tag::Compression) {
            Some(c) => c,
            None => CompressionMethod::Uncompressed,
        }
        &&& self.planar_configuration == match tag_planar(s, n, Tag::PlanarConfiguration) {
            Some(c) => c,
            None => PlanarConfiguration::Chunky,
        }
        &&& self.sample_format@ == match tag_sample_format(s, n, Tag::SampleFormat) {
            Some(c) => c,
            None => Seq::new(self.samples_per_pixel as nat, |i: int| SampleFormat::Uint),
        }
        &&& self.new_subfile_type == tag_u32(s, n, Tag::NewSubfileType)
        &&& opt_str(self.document_name) == tag_string(s, n, Tag::DocumentName)
        &&& opt_str(self.image_description) == tag_string(s, n, Tag::ImageDescription)
        &&& opt_seq(self.strip_offsets) == tag_u64s(s, n, Tag::StripOffsets)
        &&& self.orientation == tag_u16(s, n, Tag::Orientation)
        &&& self.rows_per_strip == tag_u32(s, n, Tag::RowsPerStrip)
        &&& opt_seq(self.strip_byte_counts) == tag_u64s(s, n, Tag::StripByteCounts)
        &&& opt_seq(self.min_sample_value) == tag_u16s(s, n, Tag::MinSampleValue)
        &&& opt_seq(self.max_sample_value) == tag_u16s(s, n, Tag::MaxSampleValue)
        &&& self.x_resolution == tag_rational(s, n, Tag::XResolution)
        &&& self.y_resolution == tag_rational(s, n, Tag::YResolution)
        &&& self.resolution_unit == tag_resolution_unit(s, n, Tag::ResolutionUnit)
        &&& opt_str(self.software) == tag_string(s, n, Tag::Software)
        &&& opt_str(self.date_time) == tag_string(s, n, Tag::DateTime)
        &&& opt_str(self.artist) == tag_string(s, n, Tag::Artist)
        &&& opt_str(self.host_computer) == tag_string(s, n, Tag::HostComputer)
        &&& self.predictor == tag_predictor(s, n, Tag::Predictor)
        &&& opt_seq(self.color_map) == tag_u16s(s, n, Tag::ColorMap)
        &&& self.tile_width == tag_u32(s, n, Tag::TileWidth)
        &&& self.tile_height == tag_u32(s, n, Tag::TileLength)
        &&& opt_seq(self.tile_offsets) == tag_u64s(s, n, Tag::TileOffsets)
        &&& opt_seq(self.tile_byte_counts) == tag_u64s(s, n, Tag::TileByteCounts)
        &&& opt_seq(self.extra_samples) == tag_u16s(s, n, Tag::ExtraSamples)
        &&& opt_seq(self.jpeg_tables) == tag_u8s(s, n, Tag::JPEGTables)
        &&& opt_str(self.copyright) == tag_string(s, n, Tag::Copyright)
        &&& opt_seq(self.model_pixel_scale) == tag_f64s(s, n, Tag::ModelPixelScaleTag)
        &&& opt_seq(self.model_tiepoint) == tag_f64s(s, n, Tag::ModelTiepointTag)
        &&& self.other_tags@.map_values(|p: (Tag, Value)| (p.0, p.1@)) == unknown_entries(s, n)
        &&& (self.geo_key_directory is Some) == (tag_u16s(s, n, Tag::GeoKeyDirectoryTag) is Some)
        &&& (self.geo_key_directory matches Some(g) ==> g.describes(
            tag_u16s(s, n, Tag::GeoKeyDirectoryTag)->0,
            tag_string(s, n, Tag::GeoAsciiParamsTag),
            tag_f64s(s, n, Tag::GeoDoubleParamsTag),
        ))
    }

    /// Builds the record of an IFD out of its entries `tags`, in file order, for a file of
    /// byte order `endianness`; `next_ifd_offset` is the offset of the following IFD.
    ///
    /// Where a tag occurs twice the last entry counts. Fails on the first entry whose value
    /// does not have the type that its tag asks for, then as [`ifd_error`] says.
    #[verifier::loop_isolation(false)]
    pub fn from_tags(tags: Vec<(Tag, Value)>, endianness: Endianness, next_ifd_offset: Option<u64>) -> (r: AsyncTiffResult<ImageFileDirectory>)
        ensures
            built_from(r, entry_views(tags@), endianness, next_ifd_offset),
    {
        let ghost s = entry_views(tags@);
        let ghost n = tags@.len();
        let mut tags = tags;
        let n0 = tags.len();
        let mut fields = TagFields::new();
        let mut k: usize = 0;
        while tags.len() > 0
            invariant
                s.len() == n,
                n == n0,
                0 <= k <= n,
                tags@.len() == n - k,
                forall|j: int| 0 <= j < tags@.len() ==> (#[trigger] tags@[j]).0 == s[k + j].0 && tags@[j].1@ == s[k + j].1,
                fields.gathered(s, k as int),
                forall|j: int| 0 <= j < k ==> entry_ok(#[trigger] s[j].0, s[j].1),
            decreases tags@.len(),
        {
            let (tag, value) = tags.remove(0);
            match fields.absorb(tag, value, Ghost(s), Ghost(k as int)) {
                Ok(()) => {},
                Err(t) => {
                    proof {
                        assert(first_bad_entry(s, k as int));
                    }
                    return Err(AsyncTiffError::InternalTIFFError(TiffError::FormatError(TiffFormatError::InvalidTagValueType(t))));
                },
            }
            k += 1;
        }
        proof {
            assert(entries_ok(s));
        }
        let image_width = match fields.image_width {
            Some(v) => v,
            None => {
                return Err(required(Tag::ImageWidth));
            },
        };
        let image_height = match fields.image_height {
            Some(v) => v,
            None => {
                return Err(required(Tag::ImageLength));
            },
        };
        let bits_per_sample = match fields.bits_per_sample {
            Some(v) => v,
            None => {
                return Err(required(Tag::BitsPerSample));
            },
        };
        let photometric_interpretation = match fields.photometric_interpretation {
            Some(v) => v,
            None => {
                return Err(required(Tag::PhotometricInterpretation));
            },
        };
        let samples_per_pixel = match fields.samples_per_pixel {
            Some(v) => v,
            None => {
                return Err(required(Tag::SamplesPerPixel));
            },
        };
        if bits_per_sample.len() == 0 {
            return Err(AsyncTiffError::InternalTIFFError(TiffError::FormatError(TiffFormatError::RequiredTagEmpty(Tag::BitsPerSample))));
        }
        if bits_per_sample.len() != 1 && bits_per_sample.len() != samples_per_pixel as usize {
            return Err(AsyncTiffError::InternalTIFFError(TiffError::FormatError(TiffFormatError::InconsistentSizesEncountered)));
        }
        if !all_equal(&bits_per_sample) {
            return Err(AsyncTiffError::InternalTIFFError(TiffError::UnsupportedError(TiffUnsupportedError::InconsistentBitsPerSample)));
        }
        let has_strips = fields.strip_offsets.is_some() && fields.strip_byte_counts.is_some();
        let has_tiles = fields.tile_offsets.is_some() && fields.tile_byte_counts.is_some();
        if has_strips == has_tiles {
            return Err(AsyncTiffError::InternalTIFFError(TiffError::FormatError(TiffFormatError::StripTileTagConflict)));
        }
        if !same_len(&fields.strip_offsets, &fields.strip_byte_counts) || !same_len(&fields.tile_offsets, &fields.tile_byte_counts) {
            return Err(AsyncTiffError::InternalTIFFError(TiffError::FormatError(TiffFormatError::InconsistentSizesEncountered)));
        }
        let geo_key_directory = match &fields.geo_key_directory_data {
            Some(d) => match GeoKeyDirectory::from_raw(d, &fields.geo_ascii_params, &fields.geo_double_params) {
                Some(g) => Some(g),
                None => {
                    return Err(AsyncTiffError::InternalTIFFError(TiffError::FormatError(TiffFormatError::InvalidGeoKeyDirectory)));
                },
            },
            None => None,
        };
        let compression = match fields.compression {
            Some(c) => c,
            None => CompressionMethod::Uncompressed,
        };
        let planar_configuration = match fields.planar_configuration {
            Some(c) => c,
            None => PlanarConfiguration::Chunky,
        };
        let sample_format = match fields.sample_format {
            Some(c) => c,
            None => vec![SampleFormat::Uint; samples_per_pixel as usize],
        };
        proof {
            if fields.sample_format is None {
                assert(sample_format@ =~= Seq::new(samples_per_pixel as nat, |i: int| SampleFormat::Uint));
            }
        }
        Ok(ImageFileDirectory {
            endianness,
            new_subfile_type: fields.new_subfile_type,
            image_width,
            image_height,
            bits_per_sample,
            compression,
            photometric_interpretation,
            document_name: fields.document_name,
            image_description: fields.image_description,
            strip_offsets: fields.strip_offsets,
            orientation: fields.orientation,
            samples_per_pixel,
            rows_per_strip: fields.rows_per_strip,
            strip_byte_counts: fields.strip_byte_counts,
            min_sample_value: fields.min_sample_value,
            max_sample_value: fields.max_sample_value,
            x_resolution: fields.x_resolution,
            y_resolution: fields.y_resolution,
            planar_configuration,
            resolution_unit: fields.resolution_unit,
            software: fields.software,
            date_time: fields.date_time,
            artist: fields.artist,
            host_computer: fields.host_computer,
            predictor: fields.predictor,
            color_map: fields.color_map,
            tile_width: fields.tile_width,
            tile_height: fields.tile_height,
            tile_offsets: fields.tile_offsets,
            tile_byte_counts: fields.tile_byte_counts,
            extra_samples: fields.extra_samples,
            sample_format,
            jpeg_tables: fields.jpeg_tables,
            copyright: fields.copyright,
            model_pixel_scale: fields.model_pixel_scale,
            model_tiepoint: fields.model_tiepoint,
            geo_key_directory,
            other_tags: fields.other_tags,
            next_ifd_offset,
        })
    }
}

/// `r` is what [`ImageFileDirectory::from_tags`] gives for the entries `s`: the error of the
/// first entry whose value has the wrong type, else the error of [`ifd_error`], else a record
/// that describes the entries.
pub open spec fn built_from(r: AsyncTiffResult<ImageFileDirectory>, s: Seq<(Tag, ValueView)>, endianness: Endianness, next: Option<u64>) -> bool {
    &&& !entries_ok(s) ==> (r matches Err(e) && exists|j: int|
        first_bad_entry(s, j) && e == format_err(TiffFormatError::InvalidTagValueType(s[j].0)))
    &&& entries_ok(s) ==> match r {
        Ok(ifd) => ifd_error(s) is None && ifd.describes(s, endianness, next),
        Err(e) => ifd_error(s) == Some(e),
    }
}

/// The views of entries.
pub open spec fn entry_views(tags: Seq<(Tag, Value)>) -> Seq<(Tag, ValueView)> {
    tags.map_values(|p: (Tag, Value)| (p.0, p.1@))
}

/// Every entry's value has the type that its tag asks for.
pub open spec fn entries_ok(s: Seq<(Tag, ValueView)>) -> bool {
    forall|j: int| 0 <= j < s.len() ==> entry_ok(#[trigger] s[j].0, s[j].1)
}

/// Entry `j` is the first whose value does not have the type that its tag asks for.
pub open spec fn first_bad_entry(s: Seq<(Tag, ValueView)>, j: int) -> bool {
    &&& 0 <= j < s.len()
    &&& !entry_ok(s[j].0, s[j].1)
    &&& forall|i: int| 0 <= i < j ==> entry_ok(#[trigger] s[i].0, s[i].1)
}

/// Both lists are absent, or both are present with the same length.
pub open spec fn same_len_spec(a: Option<Seq<u64>>, b: Option<Seq<u64>>) -> bool {
    match (a, b) {
        (Some(x), Some(y)) => x.len() == y.len(),
        _ => true,
    }
}

fn same_len(a: &Option<Vec<u64>>, b: &Option<Vec<u64>>) -> (r: bool)
    ensures
        r == same_len_spec(opt_seq(*a), opt_seq(*b)),
{
    match (a, b) {
        (Some(x), Some(y)) => x.len() == y.len(),
        _ => true,
    }
}

/// Every element of a non-empty vector equals its first.
fn all_equal(v: &Vec<u16>) -> (r: bool)
    requires
        v@.len() > 0,
    ensures
        r == !exists|i: int| 0 <= i < v@.len() && #[trigger] v@[i] != v@[0],
{
    let mut i: usize = 1;
    while i < v.len()
        invariant
            1 <= i <= v@.len(),
            forall|j: int| 0 <= j < i ==> #[trigger] v@[j] == v@[0],
        decreases v@.len() - i,
    {
        if v[i] != v[0] {
            return false;
        }
        i += 1;
    }
    true
}

/// The error of a missing required tag.
fn required(t: Tag) -> (r: AsyncTiffError)
    ensures
        r == format_err(TiffFormatError::RequiredTagNotFound(t)),
{
    AsyncTiffError::InternalTIFFError(TiffError::FormatError(TiffFormatError::RequiredTagNotFound(t)))
}

/// Why the entries `s`, whose values all have the right types, do not make an IFD: a
/// required tag is missing (ImageWidth, ImageLength, BitsPerSample, PhotometricInterpretation,
/// SamplesPerPixel, in that order), BitsPerSample is empty, its length is neither 1 nor
/// SamplesPerPixel, its entries differ, not exactly one of the strip and tile layouts is
/// given, the offsets and byte counts of a layout differ in length, or the GeoKeyDirectory is
/// malformed. `None` where they make an IFD.
pub open spec fn ifd_error(s: Seq<(Tag, ValueView)>) -> Option<AsyncTiffError> {
    let n = s.len() as int;
    let bps = tag_u16s(s, n, Tag::BitsPerSample)->0;
    let spp = tag_u16(s, n, Tag::SamplesPerPixel)->0;
    let strips = tag_u64s(s, n, Tag::StripOffsets) is Some && tag_u64s(s, n, Tag::StripByteCounts) is Some;
    let tiles = tag_u64s(s, n, Tag::TileOffsets) is Some && tag_u64s(s, n, Tag::TileByteCounts) is Some;
    if tag_u32(s, n, Tag::ImageWidth) is None {
        Some(format_err(TiffFormatError::RequiredTagNotFound(Tag::ImageWidth)))
    } else if tag_u32(s, n, Tag::ImageLength) is None {
        Some(format_err(TiffFormatError::RequiredTagNotFound(Tag::ImageLength)))
    } else if tag_u16s(s, n, Tag::BitsPerSample) is None {
        Some(format_err(TiffFormatError::RequiredTagNotFound(Tag::BitsPerSample)))
    } else if tag_photometric(s, n, Tag::PhotometricInterpretation) is None {
        Some(format_err(TiffFormatError::RequiredTagNotFound(Tag::PhotometricInterpretation)))
    } else if tag_u16(s, n, Tag::SamplesPerPixel) is None {
        Some(format_err(TiffFormatError::RequiredTagNotFound(Tag::SamplesPerPixel)))
    } else if bps.len() == 0 {
        Some(format_err(TiffFormatError::RequiredTagEmpty(Tag::BitsPerSample)))
    } else if bps.len() != 1 && bps.len() != spp {
        Some(format_err(TiffFormatError::InconsistentSizesEncountered))
    } else if exists|i: int| 0 <= i < bps.len() && #[trigger] bps[i] != bps[0] {
        Some(unsupported_err(TiffUnsupportedError::InconsistentBitsPerSample))
    } else if strips == tiles {
        Some(format_err(TiffFormatError::StripTileTagConflict))
    } else if !same_len_spec(tag_u64s(s, n, Tag::StripOffsets), tag_u64s(s, n, Tag::StripByteCounts))
        || !same_len_spec(tag_u64s(s, n, Tag::TileOffsets), tag_u64s(s, n, Tag::TileByteCounts)) {
        Some(format_err(TiffFormatError::InconsistentSizesEncountered))
    } else if tag_u16s(s, n, Tag::GeoKeyDirectoryTag) matches Some(d) && !geo_valid(
        d,
        tag_string(s, n, Tag::GeoAsciiParamsTag),
        tag_f64s(s, n, Tag::GeoDoubleParamsTag),
    ) {
        Some(format_err(TiffFormatError::InvalidGeoKeyDirectory))
    } else {
        None
    }
}


/// The chunk layout of an IFD: offsets, byte counts, chunks across and chunks down. Tiles
/// where both tile lists are there (with tile sizes that are not zero), else strips, one
/// across, each `RowsPerStrip` rows (the image height where that tag is missing).
pub open spec fn chunk_layout(ifd: &ImageFileDirectory) -> Option<(Seq<u64>, Seq<u64>, int, int)> {
    if ifd.tile_offsets is Some && ifd.tile_byte_counts is Some {
        match (ifd.tile_width, ifd.tile_height) {
            (Some(tw), Some(th)) => if tw > 0 && th > 0 {
                Some((
                    ifd.tile_offsets->0@,
                    ifd.tile_byte_counts->0@,
                    div_ceil(ifd.image_width as int, tw as int),
                    div_ceil(ifd.image_height as int, th as int),
                ))
            } else {
                None
            },
            _ => None,
        }
    } else if ifd.strip_offsets is Some && ifd.strip_byte_counts is Some {
        let rows = match ifd.rows_per_strip {
            Some(r) => r,
            None => ifd.image_height,
        };
        if rows > 0 {
            Some((ifd.strip_offsets->0@, ifd.strip_byte_counts->0@, 1, div_ceil(ifd.image_height as int, rows as int)))
        } else {
            None
        }
    } else {
        None
    }
}

/// The byte range `[start, end)` of the chunk at column `x` and row `y`: its offset and its
/// offset plus its byte count, at index `y * chunks_across + x`; or why there is none.
pub open spec fn tile_range(ifd: &ImageFileDirectory, x: u32, y: u32) -> AsyncTiffResult<(u64, u64)> {
    match chunk_layout(ifd) {
        None => Err(AsyncTiffError::InternalTIFFError(TiffError::UsageError(UsageError::NotTiled))),
        Some((offsets, counts, across, down)) => {
            let idx = y * across + x;
            if x >= across {
                Err(AsyncTiffError::TileIndexError(x, across as u32))
            } else if y >= down {
                Err(AsyncTiffError::TileIndexError(y, down as u32))
            } else if idx >= offsets.len() || idx >= counts.len() {
                Err(AsyncTiffError::InternalTIFFError(
                    TiffError::UsageError(UsageError::InvalidChunkIndex(if idx > 0xFFFF_FFFF { 0xFFFF_FFFF } else { idx as u32 })),
                ))
            } else if offsets[idx] + counts[idx] > u64::MAX {
                Err(AsyncTiffError::InternalTIFFError(TiffError::IntSizeError))
            } else {
                Ok((offsets[idx], (offsets[idx] + counts[idx]) as u64))
            }
        },
    }
}

/// `a / b` rounded up, for `b` not zero.
fn ceil_div(a: u32, b: u32) -> (r: u64)
    requires
        b > 0,
    ensures
        r == div_ceil(a as int, b as int),
        r <= a,
{
    let w = a as u64;
    let c = b as u64;
    proof {
        if w > 0 {
            assert((w + c - 1) as int / c as int <= w) by (nonlinear_arith)
                requires c > 0, w > 0;
        } else {
            assert((w + c - 1) as int / c as int == 0) by (nonlinear_arith)
                requires c > 0, w == 0;
        }
    }
    (w + c - 1) / c
}

/// The first `j` coordinates all have byte ranges, and coordinate `j` has the error `e`.
pub open spec fn first_range_error(ifd: &ImageFileDirectory, x: Seq<u32>, y: Seq<u32>, j: int, e: AsyncTiffError) -> bool {
    &&& 0 <= j < x.len()
    &&& tile_range(ifd, x[j], y[j]) == Err::<(u64, u64), AsyncTiffError>(e)
    &&& forall|i: int| 0 <= i < j ==> (#[trigger] tile_range(ifd, x[i], y[i])) is Ok
}

impl ImageFileDirectory {
    /// The NewSubfileType tag.
    pub fn new_subfile_type(&self) -> (r: Option<u32>)
        ensures
            r == self.new_subfile_type,
    {
        self.new_subfile_type
    }

    /// The ImageWidth tag.
    pub fn image_width(&self) -> (r: u32)
        ensures
            r == self.image_width,
    {
        self.image_width
    }

    /// The ImageLength tag.
    pub fn image_height(&self) -> (r: u32)
        ensures
            r == self.image_height,
    {
        self.image_height
    }

    /// The BitsPerSample tag.
    pub fn bits_per_sample(&self) -> (r: &[u16])
        ensures
            r@ == self.bits_per_sample@,
    {
        self.bits_per_sample.as_slice()
    }

    /// The Compression tag.
    pub fn compression(&self) -> (r: CompressionMethod)
        ensures
            r == self.compression,
    {
        self.compression
    }

    /// The PhotometricInterpretation tag.
    pub fn photometric_interpretation(&self) -> (r: PhotometricInterpretation)
        ensures
            r == self.photometric_interpretation,
    {
        self.photometric_interpretation
    }

    /// The DocumentName tag.
    pub fn document_name(&self) -> (r: Option<&str>)
        ensures
            r matches Some(v) ==> self.document_name matches Some(w) && v@ == w@,
            r is None <==> self.document_name is None,
    {
        match &self.document_name {
            Some(v) => Some(v.as_str()),
            None => None,
        }
    }

    /// The ImageDescription tag.
    pub fn image_description(&self) -> (r: Option<&str>)
        ensures
            r matches Some(v) ==> self.image_description matches Some(w) && v@ == w@,
            r is None <==> self.image_description is None,
    {
        match &self.image_description {
            Some(v) => Some(v.as_str()),
            None => None,
        }
    }

    /// The StripOffsets tag.
    pub fn strip_offsets(&self) -> (r: Option<&[u64]>)
        ensures
            r matches Some(v) ==> self.strip_offsets matches Some(w) && v@ == w@,
            r is None <==> self.strip_offsets is None,
    {
        match &self.strip_offsets {
            Some(v) => Some(v.as_slice()),
            None => None,
        }
    }

    /// The Orientation tag.
    pub fn orientation(&self) -> (r: Option<u16>)
        ensures
            r == self.orientation,
    {
        self.orientation
    }

    /// The SamplesPerPixel tag.
    pub fn samples_per_pixel(&self) -> (r: u16)
        ensures
            r == self.samples_per_pixel,
    {
        self.samples_per_pixel
    }

    /// The RowsPerStrip tag.
    pub fn rows_per_strip(&self) -> (r: Option<u32>)
        ensures
            r == self.rows_per_strip,
    {
        self.rows_per_strip
    }

    /// The StripByteCounts tag.
    pub fn strip_byte_counts(&self) -> (r: Option<&[u64]>)
        ensures
            r matches Some(v) ==> self.strip_byte_counts matches Some(w) && v@ == w@,
            r is None <==> self.strip_byte_counts is None,
    {
        match &self.strip_byte_counts {
            Some(v) => Some(v.as_slice()),
            None => None,
        }
    }

    /// The MinSampleValue tag.
    pub fn min_sample_value(&self) -> (r: Option<&[u16]>)
        ensures
            r matches Some(v) ==> self.min_sample_value matches Some(w) && v@ == w@,
            r is None <==> self.min_sample_value is None,
    {
        match &self.min_sample_value {
            Some(v) => Some(v.as_slice()),
            None => None,
        }
    }

    /// The MaxSampleValue tag.
    pub fn max_sample_value(&self) -> (r: Option<&[u16]>)
        ensures
            r matches Some(v) ==> self.max_sample_value matches Some(w) && v@ == w@,
            r is None <==> self.max_sample_value is None,
    {
        match &self.max_sample_value {
            Some(v) => Some(v.as_slice()),
            None => None,
        }
    }

    /// The XResolution tag as numerator and denominator.
    pub fn x_resolution(&self) -> (r: Option<(u32, u32)>)
        ensures
            r == self.x_resolution,
    {
        self.x_resolution
    }

    /// The YResolution tag as numerator and denominator.
    pub fn y_resolution(&self) -> (r: Option<(u32, u32)>)
        ensures
            r == self.y_resolution,
    {
        self.y_resolution
    }

    /// The PlanarConfiguration tag.
    pub fn planar_configuration(&self) -> (r: PlanarConfiguration)
        ensures
            r == self.planar_configuration,
    {
        self.planar_configuration
    }

    /// The ResolutionUnit tag.
    pub fn resolution_unit(&self) -> (r: Option<ResolutionUnit>)
        ensures
            r == self.resolution_unit,
    {
        self.resolution_unit
    }

    /// The Software tag.
    pub fn software(&self) -> (r: Option<&str>)
        ensures
            r matches Some(v) ==> self.software matches Some(w) && v@ == w@,
            r is None <==> self.software is None,
    {
        match &self.software {
            Some(v) => Some(v.as_str()),
            None => None,
        }
    }

    /// The DateTime tag.
    pub fn date_time(&self) -> (r: Option<&str>)
        ensures
            r matches Some(v) ==> self.date_time matches Some(w) && v@ == w@,
            r is None <==> self.date_time is None,
    {
        match &self.date_time {
            Some(v) => Some(v.as_str()),
            None => None,
        }
    }

    /// The Artist tag.
    pub fn artist(&self) -> (r: Option<&str>)
        ensures
            r matches Some(v) ==> self.artist matches Some(w) && v@ == w@,
            r is None <==> self.artist is None,
    {
        match &self.artist {
            Some(v) => Some(v.as_str()),
            None => None,
        }
    }

    /// The HostComputer tag.
    pub fn host_computer(&self) -> (r: Option<&str>)
        ensures
            r matches Some(v) ==> self.host_computer matches Some(w) && v@ == w@,
            r is None <==> self.host_computer is None,
    {
        match &self.host_computer {
            Some(v) => Some(v.as_str()),
            None => None,
        }
    }

    /// The Predictor tag.
    pub fn predictor(&self) -> (r: Option<Predictor>)
        ensures
            r == self.predictor,
    {
        self.predictor
    }

    /// The ColorMap tag.
    pub fn color_map(&self) -> (r: Option<&[u16]>)
        ensures
            r matches Some(v) ==> self.color_map matches Some(w) && v@ == w@,
            r is None <==> self.color_map is None,
    {
        match &self.color_map {
            Some(v) => Some(v.as_slice()),
            None => None,
        }
    }

    /// The TileWidth tag.
    pub fn tile_width(&self) -> (r: Option<u32>)
        ensures
            r == self.tile_width,
    {
        self.tile_width
    }

    /// The TileLength tag.
    pub fn tile_height(&self) -> (r: Option<u32>)
        ensures
            r == self.tile_height,
    {
        self.tile_height
    }

    /// The TileOffsets tag.
    pub fn tile_offsets(&self) -> (r: Option<&[u64]>)
        ensures
            r matches Some(v) ==> self.tile_offsets matches Some(w) && v@ == w@,
            r is None <==> self.tile_offsets is None,
    {
        match &self.tile_offsets {
            Some(v) => Some(v.as_slice()),
            None => None,
        }
    }

    /// The TileByteCounts tag.
    pub fn tile_byte_counts(&self) -> (r: Option<&[u64]>)
        ensures
            r matches Some(v) ==> self.tile_byte_counts matches Some(w) && v@ == w@,
            r is None <==> self.tile_byte_counts is None,
    {
        match &self.tile_byte_counts {
            Some(v) => Some(v.as_slice()),
            None => None,
        }
    }

    /// The ExtraSamples tag.
    pub fn extra_samples(&self) -> (r: Option<&[u16]>)
        ensures
            r matches Some(v) ==> self.extra_samples matches Some(w) && v@ == w@,
            r is None <==> self.extra_samples is None,
    {
        match &self.extra_samples {
            Some(v) => Some(v.as_slice()),
            None => None,
        }
    }

    /// The SampleFormat tag.
    pub fn sample_format(&self) -> (r: &[SampleFormat])
        ensures
            r@ == self.sample_format@,
    {
        self.sample_format.as_slice()
    }

    /// The JPEGTables tag.
    pub fn jpeg_tables(&self) -> (r: Option<&[u8]>)
        ensures
            r matches Some(v) ==> self.jpeg_tables matches Some(w) && v@ == w@,
            r is None <==> self.jpeg_tables is None,
    {
        match &self.jpeg_tables {
            Some(v) => Some(v.as_slice()),
            None => None,
        }
    }

    /// The Copyright tag.
    pub fn copyright(&self) -> (r: Option<&str>)
        ensures
            r matches Some(v) ==> self.copyright matches Some(w) && v@ == w@,
            r is None <==> self.copyright is None,
    {
        match &self.copyright {
            Some(v) => Some(v.as_str()),
            None => None,
        }
    }

    /// The ModelPixelScaleTag tag (bit patterns of doubles).
    pub fn model_pixel_scale(&self) -> (r: Option<&[u64]>)
        ensures
            r matches Some(v) ==> self.model_pixel_scale matches Some(w) && v@ == w@,
            r is None <==> self.model_pixel_scale is None,
    {
        match &self.model_pixel_scale {
            Some(v) => Some(v.as_slice()),
            None => None,
        }
    }

    /// The ModelTiepointTag tag (bit patterns of doubles).
    pub fn model_tiepoint(&self) -> (r: Option<&[u64]>)
        ensures
            r matches Some(v) ==> self.model_tiepoint matches Some(w) && v@ == w@,
            r is None <==> self.model_tiepoint is None,
    {
        match &self.model_tiepoint {
            Some(v) => Some(v.as_slice()),
            None => None,
        }
    }

    /// The other tags, in file order.
    pub fn other_tags(&self) -> (r: &[(Tag, Value)])
        ensures
            r@ == self.other_tags@,
    {
        self.other_tags.as_slice()
    }

    /// The parsed GeoKeyDirectory, if any.
    pub fn geo_key_directory(&self) -> (r: &Option<GeoKeyDirectory>)
        ensures
            *r == self.geo_key_directory,
    {
        &self.geo_key_directory
    }

    /// The offset of the next IFD, if any.
    pub fn next_ifd_offset(&self) -> (r: Option<u64>)
        ensures
            r == self.next_ifd_offset,
    {
        self.next_ifd_offset
    }

    /// The byte range `[start, end)` of the chunk at column `x` and row `y`, as [`tile_range`]
    /// says.
    pub fn get_tile_byte_range(&self, x: u32, y: u32) -> (r: AsyncTiffResult<(u64, u64)>)
        ensures
            r == tile_range(self, x, y),
    {
        let (offsets, counts, tw, th, w, h): (&Vec<u64>, &Vec<u64>, u32, u32, u32, u32) = if self.tile_offsets.is_some()
            && self.tile_byte_counts.is_some() {
            let (tw, th) = match (self.tile_width, self.tile_height) {
                (Some(tw), Some(th)) => (tw, th),
                _ => {
                    return Err(AsyncTiffError::InternalTIFFError(TiffError::UsageError(UsageError::NotTiled)));
                },
            };
            (self.tile_offsets.as_ref().unwrap(), self.tile_byte_counts.as_ref().unwrap(), tw, th, self.image_width, self.image_height)
        } else if self.strip_offsets.is_some() && self.strip_byte_counts.is_some() {
            let rows = match self.rows_per_strip {
                Some(r) => r,
                None => self.image_height,
            };
            (self.strip_offsets.as_ref().unwrap(), self.strip_byte_counts.as_ref().unwrap(), 1, rows, 1, self.image_height)
        } else {
            return Err(AsyncTiffError::InternalTIFFError(TiffError::UsageError(UsageError::NotTiled)));
        };
        if tw == 0 || th == 0 {
            return Err(AsyncTiffError::InternalTIFFError(TiffError::UsageError(UsageError::NotTiled)));
        }
        let across = ceil_div(w, tw);
        let down = ceil_div(h, th);
        if x as u64 >= across {
            return Err(AsyncTiffError::TileIndexError(x, across as u32));
        }
        if y as u64 >= down {
            return Err(AsyncTiffError::TileIndexError(y, down as u32));
        }
        proof {
            assert(y as int * across <= 0xFFFF_FFFF * 0xFFFF_FFFF) by (nonlinear_arith)
                requires y <= 0xFFFF_FFFF, across <= 0xFFFF_FFFF;
        }
        let idx = y as u64 * across + x as u64;
        if idx >= offsets.len() as u64 || idx >= counts.len() as u64 {
            return Err(AsyncTiffError::InternalTIFFError(TiffError::UsageError(UsageError::InvalidChunkIndex(
                if idx > 0xFFFF_FFFF { 0xFFFF_FFFF } else { idx as u32 },
            ))));
        }
        let i = idx as usize;
        let start = offsets[i];
        let count = counts[i];
        match start.checked_add(count) {
            Some(end) => Ok((start, end)),
            None => Err(AsyncTiffError::InternalTIFFError(TiffError::IntSizeError)),
        }
    }

    /// The RGB palette of the ColorMap tag: entry `i` takes the `i`-th red, green and blue
    /// values, each scaled from 16 to 8 bits. `None` where there is no ColorMap, or it holds
    /// fewer than three times 2^BitsPerSample values (BitsPerSample at most 16).
    pub fn colormap(&self) -> (r: Option<Vec<(u8, u8, u8)>>)
        ensures
            r matches Some(v) ==> self.color_map matches Some(cm) && self.bits_per_sample@.len() > 0
                && self.bits_per_sample@[0] <= 16 && v@.len() == pow2(self.bits_per_sample@[0] as nat)
                && 3 * v@.len() <= cm@.len() && forall|i: int| 0 <= i < v@.len() ==> #[trigger] v@[i] == (
                (cm@[i] / 257) as u8,
                (cm@[i + v@.len()] / 257) as u8,
                (cm@[i + 2 * v@.len()] / 257) as u8,
            ),
            r is None ==> self.color_map is None || self.bits_per_sample@.len() == 0 || self.bits_per_sample@[0] > 16
                || self.color_map->0@.len() < 3 * pow2(self.bits_per_sample@[0] as nat),
    {
        let cm = match &self.color_map {
            Some(cm) => cm,
            None => {
                return None;
            },
        };
        if self.bits_per_sample.len() == 0 || self.bits_per_sample[0] > 16 {
            return None;
        }
        let bits = self.bits_per_sample[0];
        let mut count: usize = 1;
        let mut b: u16 = 0;
        while b < bits
            invariant
                b <= bits <= 16,
                count == pow2(b as nat),
            decreases bits - b,
        {
            proof {
                lemma_pow2_bound(b as nat);
            }
            count = count * 2;
            b += 1;
        }
        if cm.len() / 3 < count {
            return None;
        }
        assert(3 * count <= cm@.len());
        let cml = cm.len();
        let mut out: Vec<(u8, u8, u8)> = Vec::new();
        let mut i: usize = 0;
        while i < count
            invariant
                i <= count,
                cm@.len() == cml,
                3 * count <= cm@.len(),
                out@.len() == i,
                forall|j: int| 0 <= j < i ==> #[trigger] out@[j] == (
                    (cm@[j] / 257) as u8,
                    (cm@[j + count] / 257) as u8,
                    (cm@[j + 2 * count] / 257) as u8,
                ),
            decreases count - i,
        {
            out.push(((cm[i] / 257) as u8, (cm[i + count] / 257) as u8, (cm[i + 2 * count] / 257) as u8));
            i += 1;
        }
        Some(out)
    }

    /// The number of tiles across and down; `None` where the IFD is not tiled.
    pub fn tile_count(&self) -> (r: Option<(u32, u32)>)
        ensures
            match (self.tile_width, self.tile_height) {
                (Some(tw), Some(th)) => if tw > 0 && th > 0 {
                    r == Some((div_ceil(self.image_width as int, tw as int) as u32, div_ceil(self.image_height as int, th as int) as u32))
                } else {
                    r is None
                },
                _ => r is None,
            },
    {
        let (tw, th) = match (self.tile_width, self.tile_height) {
            (Some(tw), Some(th)) => (tw, th),
            _ => {
                return None;
            },
        };
        if tw == 0 || th == 0 {
            return None;
        }
        let w = self.image_width as u64;
        let h = self.image_height as u64;
        let a = tw as u64;
        let b = th as u64;
        proof {
            if w > 0 {
                assert((w + a - 1) as int / a as int <= w) by (nonlinear_arith)
                    requires a > 0, w > 0;
            } else {
                assert((w + a - 1) as int / a as int == 0) by (nonlinear_arith)
                    requires a > 0, w == 0;
            }
            if h > 0 {
                assert((h + b - 1) as int / b as int <= h) by (nonlinear_arith)
                    requires b > 0, h > 0;
            } else {
                assert((h + b - 1) as int / b as int == 0) by (nonlinear_arith)
                    requires b > 0, h == 0;
            }
        }
        Some((((w + a - 1) / a) as u32, ((h + b - 1) / b) as u32))
    }

    /// The byte ranges of the chunks at the columns `x` and rows `y`, pairwise, in order; the
    /// first error where a chunk has none.
    pub fn tile_byte_ranges(&self, x: &[u32], y: &[u32]) -> (r: AsyncTiffResult<Vec<(u64, u64)>>)
        ensures
            x@.len() != y@.len() ==> r == Err::<Vec<(u64, u64)>, AsyncTiffError>(AsyncTiffError::InternalTIFFError(
                TiffError::UsageError(UsageError::MismatchedCoordinates),
            )),
            x@.len() == y@.len() ==> (r is Ok <==> forall|i: int| 0 <= i < x@.len() ==> (#[trigger] tile_range(self, x@[i], y@[i])) is Ok),
            r matches Ok(v) ==> v@.len() == x@.len() && forall|i: int| 0 <= i < v@.len() ==> tile_range(self, x@[i], y@[i])
                == Ok::<(u64, u64), AsyncTiffError>(#[trigger] v@[i]),
            r matches Err(e) ==> (x@.len() == y@.len() ==> exists|j: int| #[trigger] first_range_error(self, x@, y@, j, e)),
    {
        if x.len() != y.len() {
            return Err(AsyncTiffError::InternalTIFFError(TiffError::UsageError(UsageError::MismatchedCoordinates)));
        }
        let mut out: Vec<(u64, u64)> = Vec::new();
        let mut i: usize = 0;
        while i < x.len()
            invariant
                i <= x@.len(),
                x@.len() == y@.len(),
                out@.len() == i,
                forall|j: int| 0 <= j < i ==> tile_range(self, x@[j], y@[j]) == Ok::<(u64, u64), AsyncTiffError>(#[trigger] out@[j]),
            decreases x@.len() - i,
        {
            match self.get_tile_byte_range(x[i], y[i]) {
                Ok(range) => out.push(range),
                Err(e) => {
                    proof {
                        assert forall|j: int| 0 <= j < i implies (#[trigger] tile_range(self, x@[j], y@[j])) is Ok by {
                            assert(tile_range(self, x@[j], y@[j]) == Ok::<(u64, u64), AsyncTiffError>(out@[j]));
                        }
                        assert(first_range_error(self, x@, y@, i as int, e));
                        assert(exists|j: int| #[trigger] first_range_error(self, x@, y@, j, e));
                    }
                    return Err(e);
                },
            }
            i += 1;
        }
        proof {
            assert forall|j: int| 0 <= j < x@.len() implies (#[trigger] tile_range(self, x@[j], y@[j])) is Ok by {
                assert(tile_range(self, x@[j], y@[j]) == Ok::<(u64, u64), AsyncTiffError>(out@[j]));
            }
        }
        Ok(out)
    }

    /// The chunk at column `x` and row `y` of this IFD, with its fetched compressed bytes.
    pub fn tile_from_bytes(&self, x: u32, y: u32, compressed_bytes: Vec<u8>) -> (r: AsyncTiffResult<Tile>)
        ensures
            r matches Ok(t) ==> t.x == x && t.y == y && t.compressed_bytes@ == compressed_bytes@ && t.compression_method
                == self.compression && t.photometric_interpretation == self.photometric_interpretation && t.predictor == (match self.predictor {
                Some(p) => p,
                None => Predictor::NoPredictor,
            }) && t.predictor_info.wf() && opt_seq(t.jpeg_tables) == opt_seq(self.jpeg_tables),
            r is Ok <==> predictor_info_error(self) is None,
            r matches Err(e) ==> predictor_info_error(self) == Some(e),
    {
        let predictor_info = match PredictorInfo::from_ifd(self) {
            Ok(p) => p,
            Err(e) => {
                return Err(e);
            },
        };
        let jpeg_tables = match &self.jpeg_tables {
            Some(t) => Some(slice_to_vec(t.as_slice())),
            None => None,
        };
        Ok(Tile {
            x,
            y,
            predictor: match self.predictor {
                Some(p) => p,
                None => Predictor::NoPredictor,
            },
            predictor_info,
            compressed_bytes,
            compression_method: self.compression,
            photometric_interpretation: self.photometric_interpretation,
            jpeg_tables,
        })
    }
}

/// 2 to the power `n`.
pub open spec fn pow2(n: nat) -> nat
    decreases n,
{
    if n == 0 { 1 } else { 2 * pow2((n - 1) as nat) }
}

proof fn lemma_pow2_mono(n: nat, m: nat)
    requires
        n <= m,
    ensures
        pow2(n) <= pow2(m),
    decreases m - n,
{
    if n < m {
        lemma_pow2_mono(n, (m - 1) as nat);
    }
}

proof fn lemma_pow2_bound(n: nat)
    requires
        n < 16,
    ensures
        pow2(n) < 0x1_0000,
        pow2(n + 1) == 2 * pow2(n),
{
    lemma_pow2_mono(n + 1, 16);
    reveal_with_fuel(pow2, 17);
    assert(pow2(16) == 0x1_0000);
}

} // verus!
