//! The GeoKeyDirectory: georeferencing keys packed into three TIFF tags.
//!
//! GeoKeyDirectoryTag holds a header of four shorts `[version, revision, minor, key_count]`
//! and then four shorts per key: `[key_id, tag_location, count, value_or_offset]`. A key's
//! value is the short itself (location 0), or `count` characters of GeoAsciiParamsTag, or
//! `count` doubles of GeoDoubleParamsTag, starting at `value_or_offset`.
use vstd::prelude::*;
use vstd::string::is_ascii;

use crate::endian::slice_to_vec;
use crate::entry::{ascii_chars, string_from_utf8};
use crate::ifd::{ascii_of, opt_seq, opt_str};
use crate::value::{as_f64_bits, as_u16, Value, ValueView};

verus! {

broadcast use vstd::string::group_string_axioms;

/// Location of a key whose value is in GeoDoubleParamsTag.
pub const GEO_DOUBLE_PARAMS: u16 = 34736;

/// Location of a key whose value is in GeoAsciiParamsTag.
pub const GEO_ASCII_PARAMS: u16 = 34737;

/// The character that ends each value in GeoAsciiParamsTag.
pub const PIPE: u8 = 124;

/// The header of a directory is there and has version 1 and revision 1, and every key
/// that it announces has its four shorts.
pub open spec fn geo_header_ok(d: Seq<u16>) -> bool {
    &&& d.len() >= 4
    &&& d[0] == 1
    &&& d[1] == 1
    &&& d.len() >= 4 + 4 * d[3]
}

/// The bytes of characters.
pub open spec fn char_bytes(c: Seq<char>) -> Seq<u8> {
    c.map_values(|x: char| x as u8)
}

/// `b` without its last byte where that byte is `|`.
pub open spec fn strip_pipe(b: Seq<u8>) -> Seq<u8> {
    if b.len() > 0 && b.last() == PIPE {
        b.drop_last()
    } else {
        b
    }
}

/// The key at index `k` of directory `d`: `Ok(None)` for a key id or a location that is not
/// known, `Err` where the value it points to is not there.
pub open spec fn geo_key_entry(d: Seq<u16>, k: int, ascii: Option<Seq<char>>, doubles: Option<Seq<u64>>) -> Result<Option<(GeoKeyTag, ValueView)>, ()> {
    let id = d[4 + 4 * k];
    let loc = d[5 + 4 * k];
    let count = d[6 + 4 * k] as int;
    let off = d[7 + 4 * k] as int;
    match GeoKeyTag::spec_from_u16(id) {
        None => Ok(None),
        Some(t) => if loc == 0 {
            Ok(Some((t, ValueView::Short(off as u16))))
        } else if loc == GEO_ASCII_PARAMS {
            match ascii {
                Some(a) => if !vstd::utf8::is_ascii_chars(a) || off + count > a.len() {
                    Err(())
                } else {
                    Ok(Some((t, ValueView::Ascii(ascii_chars(strip_pipe(char_bytes(a).subrange(off, off + count)))))))
                },
                None => Err(()),
            }
        } else if loc == GEO_DOUBLE_PARAMS {
            match doubles {
                Some(ds) => if off + count > ds.len() {
                    Err(())
                } else if count == 1 {
                    Ok(Some((t, ValueView::Double(ds[off]))))
                } else {
                    Ok(Some((t, ValueView::List(Seq::new(count as nat, |i: int| ValueView::Double(ds[off + i]))))))
                },
                None => Err(()),
            }
        } else {
            Ok(None)
        },
    }
}

/// The entries of the first `n` keys of directory `d`, in order, skipping those that are
/// not known.
pub open spec fn geo_entries(d: Seq<u16>, n: int, ascii: Option<Seq<char>>, doubles: Option<Seq<u64>>) -> Result<Seq<(GeoKeyTag, ValueView)>, ()>
    decreases n,
{
    if n <= 0 {
        Ok(Seq::empty())
    } else {
        match geo_entries(d, n - 1, ascii, doubles) {
            Err(()) => Err(()),
            Ok(prev) => match geo_key_entry(d, n - 1, ascii, doubles) {
                Err(()) => Err(()),
                Ok(None) => Ok(prev),
                Ok(Some(e)) => Ok(prev.push(e)),
            },
        }
    }
}

/// The value of the last of the first `n` entries of `s` with key `t`.
pub open spec fn geo_last(s: Seq<(GeoKeyTag, ValueView)>, n: int, t: GeoKeyTag) -> Option<ValueView>
    decreases n,
{
    if n <= 0 {
        None
    } else if s[n - 1].0 == t {
        Some(s[n - 1].1)
    } else {
        geo_last(s, n - 1, t)
    }
}

proof fn lemma_geo_last_step(s: Seq<(GeoKeyTag, ValueView)>, n: int)
    requires
        0 <= n < s.len(),
    ensures
        forall|t: GeoKeyTag| #[trigger] geo_last(s, n + 1, t) == if s[n].0 == t { Some(s[n].1) } else { geo_last(s, n, t) },
{
}

/// The last value of key `t` as a short.
pub open spec fn geo_u16(s: Seq<(GeoKeyTag, ValueView)>, n: int, t: GeoKeyTag) -> Option<u16> {
    match geo_last(s, n, t) {
        Some(v) => as_u16(v),
        None => None,
    }
}

/// The last value of key `t` as characters.
pub open spec fn geo_string(s: Seq<(GeoKeyTag, ValueView)>, n: int, t: GeoKeyTag) -> Option<Seq<char>> {
    match geo_last(s, n, t) {
        Some(v) => ascii_of(v),
        None => None,
    }
}

/// The last value of key `t` as the bit pattern of a double.
pub open spec fn geo_f64(s: Seq<(GeoKeyTag, ValueView)>, n: int, t: GeoKeyTag) -> Option<u64> {
    match geo_last(s, n, t) {
        Some(v) => as_f64_bits(v),
        None => None,
    }
}

/// Every entry has a value of the type that its key asks for.
pub open spec fn geo_entries_ok(s: Seq<(GeoKeyTag, ValueView)>) -> bool {
    forall|i: int| 0 <= i < s.len() ==> geo_entry_ok(#[trigger] s[i].0, s[i].1)
}

/// A directory `d`, with the ASCII and double parameters `ascii` and `doubles`, parses.
pub open spec fn geo_valid(d: Seq<u16>, ascii: Option<Seq<char>>, doubles: Option<Seq<u64>>) -> bool {
    &&& geo_header_ok(d)
    &&& geo_entries(d, d[3] as int, ascii, doubles) matches Ok(s)
    &&& geo_entries_ok(s)
}

/// A key of the GeoKeyDirectory.
#[derive(Debug, Clone, Copy, PartialEq, Eq, Hash, Structural)]
pub enum GeoKeyTag {
    ModelType,
    RasterType,
    Citation,
    GeographicType,
    GeogCitation,
    GeogGeodeticDatum,
    GeogPrimeMeridian,
    GeogLinearUnits,
    GeogLinearUnitSize,
    GeogAngularUnits,
    GeogAngularUnitSize,
    GeogEllipsoid,
    GeogSemiMajorAxis,
    GeogSemiMinorAxis,
    GeogInvFlattening,
    GeogAzimuthUnits,
    GeogPrimeMeridianLong,
    ProjectedType,
    ProjCitation,
    Projection,
    ProjCoordTrans,
    ProjLinearUnits,
    ProjLinearUnitSize,
    ProjStdParallel1,
    ProjStdParallel2,
    ProjNatOriginLong,
    ProjNatOriginLat,
    ProjFalseEasting,
    ProjFalseNorthing,
    ProjFalseOriginLong,
    ProjFalseOriginLat,
    ProjFalseOriginEasting,
    ProjFalseOriginNorthing,
    ProjCenterLong,
    ProjCenterLat,
    ProjCenterEasting,
    ProjCenterNorthing,
    ProjScaleAtNatOrigin,
    ProjScaleAtCenter,
    ProjAzimuthAngle,
    ProjStraightVertPoleLong,
    Vertical,
    VerticalCitation,
    VerticalDatum,
    VerticalUnits,
}

impl GeoKeyTag {
    /// The key with id `c`, if it has one.
    pub open spec fn spec_from_u16(c: u16) -> Option<GeoKeyTag> {
        match c {
            1024 => Some(GeoKeyTag::ModelType),
            1025 => Some(GeoKeyTag::RasterType),
            1026 => Some(GeoKeyTag::Citation),
            2048 => Some(GeoKeyTag::GeographicType),
            2049 => Some(GeoKeyTag::GeogCitation),
            2050 => Some(GeoKeyTag::GeogGeodeticDatum),
            2051 => Some(GeoKeyTag::GeogPrimeMeridian),
            2052 => Some(GeoKeyTag::GeogLinearUnits),
            2053 => Some(GeoKeyTag::GeogLinearUnitSize),
            2054 => Some(GeoKeyTag::GeogAngularUnits),
            2055 => Some(GeoKeyTag::GeogAngularUnitSize),
            2056 => Some(GeoKeyTag::GeogEllipsoid),
            2057 => Some(GeoKeyTag::GeogSemiMajorAxis),
            2058 => Some(GeoKeyTag::GeogSemiMinorAxis),
            2059 => Some(GeoKeyTag::GeogInvFlattening),
            2060 => Some(GeoKeyTag::GeogAzimuthUnits),
            2061 => Some(GeoKeyTag::GeogPrimeMeridianLong),
            3072 => Some(GeoKeyTag::ProjectedType),
            3073 => Some(GeoKeyTag::ProjCitation),
            3074 => Some(GeoKeyTag::Projection),
            3075 => Some(GeoKeyTag::ProjCoordTrans),
            3076 => Some(GeoKeyTag::ProjLinearUnits),
            3077 => Some(GeoKeyTag::ProjLinearUnitSize),
            3078 => Some(GeoKeyTag::ProjStdParallel1),
            3079 => Some(GeoKeyTag::ProjStdParallel2),
            3080 => Some(GeoKeyTag::ProjNatOriginLong),
            3081 => Some(GeoKeyTag::ProjNatOriginLat),
            3082 => Some(GeoKeyTag::ProjFalseEasting),
            3083 => Some(GeoKeyTag::ProjFalseNorthing),
            3084 => Some(GeoKeyTag::ProjFalseOriginLong),
            3085 => Some(GeoKeyTag::ProjFalseOriginLat),
            3086 => Some(GeoKeyTag::ProjFalseOriginEasting),
            3087 => Some(GeoKeyTag::ProjFalseOriginNorthing),
            3088 => Some(GeoKeyTag::ProjCenterLong),
            3089 => Some(GeoKeyTag::ProjCenterLat),
            3090 => Some(GeoKeyTag::ProjCenterEasting),
            3091 => Some(GeoKeyTag::ProjCenterNorthing),
            3092 => Some(GeoKeyTag::ProjScaleAtNatOrigin),
            3093 => Some(GeoKeyTag::ProjScaleAtCenter),
            3094 => Some(GeoKeyTag::ProjAzimuthAngle),
            3095 => Some(GeoKeyTag::ProjStraightVertPoleLong),
            4096 => Some(GeoKeyTag::Vertical),
            4097 => Some(GeoKeyTag::VerticalCitation),
            4098 => Some(GeoKeyTag::VerticalDatum),
            4099 => Some(GeoKeyTag::VerticalUnits),
            _ => None,
        }
    }

    /// Maps a key id to its key; `None` for an id without one.
    pub fn from_u16(c: u16) -> (r: Option<GeoKeyTag>)
        ensures
            r == GeoKeyTag::spec_from_u16(c),
    {
        match c {
            1024 => Some(GeoKeyTag::ModelType),
            1025 => Some(GeoKeyTag::RasterType),
            1026 => Some(GeoKeyTag::Citation),
            2048 => Some(GeoKeyTag::GeographicType),
            2049 => Some(GeoKeyTag::GeogCitation),
            2050 => Some(GeoKeyTag::GeogGeodeticDatum),
            2051 => Some(GeoKeyTag::GeogPrimeMeridian),
            2052 => Some(GeoKeyTag::GeogLinearUnits),
            2053 => Some(GeoKeyTag::GeogLinearUnitSize),
            2054 => Some(GeoKeyTag::GeogAngularUnits),
            2055 => Some(GeoKeyTag::GeogAngularUnitSize),
            2056 => Some(GeoKeyTag::GeogEllipsoid),
            2057 => Some(GeoKeyTag::GeogSemiMajorAxis),
            2058 => Some(GeoKeyTag::GeogSemiMinorAxis),
            2059 => Some(GeoKeyTag::GeogInvFlattening),
            2060 => Some(GeoKeyTag::GeogAzimuthUnits),
            2061 => Some(GeoKeyTag::GeogPrimeMeridianLong),
            3072 => Some(GeoKeyTag::ProjectedType),
            3073 => Some(GeoKeyTag::ProjCitation),
            3074 => Some(GeoKeyTag::Projection),
            3075 => Some(GeoKeyTag::ProjCoordTrans),
            3076 => Some(GeoKeyTag::ProjLinearUnits),
            3077 => Some(GeoKeyTag::ProjLinearUnitSize),
            3078 => Some(GeoKeyTag::ProjStdParallel1),
            3079 => Some(GeoKeyTag::ProjStdParallel2),
            3080 => Some(GeoKeyTag::ProjNatOriginLong),
            3081 => Some(GeoKeyTag::ProjNatOriginLat),
            3082 => Some(GeoKeyTag::ProjFalseEasting),
            3083 => Some(GeoKeyTag::ProjFalseNorthing),
            3084 => Some(GeoKeyTag::ProjFalseOriginLong),
            3085 => Some(GeoKeyTag::ProjFalseOriginLat),
            3086 => Some(GeoKeyTag::ProjFalseOriginEasting),
            3087 => Some(GeoKeyTag::ProjFalseOriginNorthing),
            3088 => Some(GeoKeyTag::ProjCenterLong),
            3089 => Some(GeoKeyTag::ProjCenterLat),
            3090 => Some(GeoKeyTag::ProjCenterEasting),
            3091 => Some(GeoKeyTag::ProjCenterNorthing),
            3092 => Some(GeoKeyTag::ProjScaleAtNatOrigin),
            3093 => Some(GeoKeyTag::ProjScaleAtCenter),
            3094 => Some(GeoKeyTag::ProjAzimuthAngle),
            3095 => Some(GeoKeyTag::ProjStraightVertPoleLong),
            4096 => Some(GeoKeyTag::Vertical),
            4097 => Some(GeoKeyTag::VerticalCitation),
            4098 => Some(GeoKeyTag::VerticalDatum),
            4099 => Some(GeoKeyTag::VerticalUnits),
            _ => None,
        }
    }
}

/// The value of a key has the type that the key asks for.
pub open spec fn geo_entry_ok(t: GeoKeyTag, v: ValueView) -> bool {
    match t {
        GeoKeyTag::ModelType => as_u16(v) is Some,
        GeoKeyTag::RasterType => as_u16(v) is Some,
        GeoKeyTag::Citation => ascii_of(v) is Some,
        GeoKeyTag::GeographicType => as_u16(v) is Some,
        GeoKeyTag::GeogCitation => ascii_of(v) is Some,
        GeoKeyTag::GeogGeodeticDatum => as_u16(v) is Some,
        GeoKeyTag::GeogPrimeMeridian => as_u16(v) is Some,
        GeoKeyTag::GeogLinearUnits => as_u16(v) is Some,
        GeoKeyTag::GeogLinearUnitSize => as_f64_bits(v) is Some,
        GeoKeyTag::GeogAngularUnits => as_u16(v) is Some,
        GeoKeyTag::GeogAngularUnitSize => as_f64_bits(v) is Some,
        GeoKeyTag::GeogEllipsoid => as_u16(v) is Some,
        GeoKeyTag::GeogSemiMajorAxis => as_f64_bits(v) is Some,
        GeoKeyTag::GeogSemiMinorAxis => as_f64_bits(v) is Some,
        GeoKeyTag::GeogInvFlattening => as_f64_bits(v) is Some,
        GeoKeyTag::GeogAzimuthUnits => as_u16(v) is Some,
        GeoKeyTag::GeogPrimeMeridianLong => as_f64_bits(v) is Some,
        GeoKeyTag::ProjectedType => as_u16(v) is Some,
        GeoKeyTag::ProjCitation => ascii_of(v) is Some,
        GeoKeyTag::Projection => as_u16(v) is Some,
        GeoKeyTag::ProjCoordTrans => as_u16(v) is Some,
        GeoKeyTag::ProjLinearUnits => as_u16(v) is Some,
        GeoKeyTag::ProjLinearUnitSize => as_f64_bits(v) is Some,
        GeoKeyTag::ProjStdParallel1 => as_f64_bits(v) is Some,
        GeoKeyTag::ProjStdParallel2 => as_f64_bits(v) is Some,
        GeoKeyTag::ProjNatOriginLong => as_f64_bits(v) is Some,
        GeoKeyTag::ProjNatOriginLat => as_f64_bits(v) is Some,
        GeoKeyTag::ProjFalseEasting => as_f64_bits(v) is Some,
        GeoKeyTag::ProjFalseNorthing => as_f64_bits(v) is Some,
        GeoKeyTag::ProjFalseOriginLong => as_f64_bits(v) is Some,
        GeoKeyTag::ProjFalseOriginLat => as_f64_bits(v) is Some,
        GeoKeyTag::ProjFalseOriginEasting => as_f64_bits(v) is Some,
        GeoKeyTag::ProjFalseOriginNorthing => as_f64_bits(v) is Some,
        GeoKeyTag::ProjCenterLong => as_f64_bits(v) is Some,
        GeoKeyTag::ProjCenterLat => as_f64_bits(v) is Some,
        GeoKeyTag::ProjCenterEasting => as_f64_bits(v) is Some,
        GeoKeyTag::ProjCenterNorthing => as_f64_bits(v) is Some,
        GeoKeyTag::ProjScaleAtNatOrigin => as_f64_bits(v) is Some,
        GeoKeyTag::ProjScaleAtCenter => as_f64_bits(v) is Some,
        GeoKeyTag::ProjAzimuthAngle => as_f64_bits(v) is Some,
        GeoKeyTag::ProjStraightVertPoleLong => as_f64_bits(v) is Some,
        GeoKeyTag::Vertical => as_u16(v) is Some,
        GeoKeyTag::VerticalCitation => ascii_of(v) is Some,
        GeoKeyTag::VerticalDatum => as_u16(v) is Some,
        GeoKeyTag::VerticalUnits => as_u16(v) is Some,
    }
}

/// Parsed GeoKeyDirectory: the georeferencing keys of an image.
///
/// Double values are held as their IEEE 754 bit patterns.
#[derive(Debug)]
pub struct GeoKeyDirectory {
    pub model_type: Option<u16>,
    pub raster_type: Option<u16>,
    pub citation: Option<String>,
    pub geographic_type: Option<u16>,
    pub geog_citation: Option<String>,
    pub geog_geodetic_datum: Option<u16>,
    pub geog_prime_meridian: Option<u16>,
    pub geog_linear_units: Option<u16>,
    pub geog_linear_unit_size: Option<u64>,
    pub geog_angular_units: Option<u16>,
    pub geog_angular_unit_size: Option<u64>,
    pub geog_ellipsoid: Option<u16>,
    pub geog_semi_major_axis: Option<u64>,
    pub geog_semi_minor_axis: Option<u64>,
    pub geog_inv_flattening: Option<u64>,
    pub geog_azimuth_units: Option<u16>,
    pub geog_prime_meridian_long: Option<u64>,
    pub projected_type: Option<u16>,
    pub proj_citation: Option<String>,
    pub projection_geo_key: Option<u16>,
    pub proj_coord_trans_geo_key: Option<u16>,
    pub proj_linear_units_geo_key: Option<u16>,
    pub proj_linear_unit_size_geo_key: Option<u64>,
    pub proj_std_parallel1_geo_key: Option<u64>,
    pub proj_std_parallel2_geo_key: Option<u64>,
    pub proj_nat_origin_long_geo_key: Option<u64>,
    pub proj_nat_origin_lat_geo_key: Option<u64>,
    pub proj_false_easting_geo_key: Option<u64>,
    pub proj_false_northing_geo_key: Option<u64>,
    pub proj_false_origin_long_geo_key: Option<u64>,
    pub proj_false_origin_lat_geo_key: Option<u64>,
    pub proj_false_origin_easting_geo_key: Option<u64>,
    pub proj_false_origin_northing_geo_key: Option<u64>,
    pub proj_center_long_geo_key: Option<u64>,
    pub proj_center_lat_geo_key: Option<u64>,
    pub proj_center_easting_geo_key: Option<u64>,
    pub proj_center_northing_geo_key: Option<u64>,
    pub proj_scale_at_nat_origin_geo_key: Option<u64>,
    pub proj_scale_at_center_geo_key: Option<u64>,
    pub proj_azimuth_angle_geo_key: Option<u64>,
    pub proj_straight_vert_pole_long_geo_key: Option<u64>,
    pub vertical_geo_key: Option<u16>,
    pub vertical_citation_geo_key: Option<String>,
    pub vertical_datum_geo_key: Option<u16>,
    pub vertical_units_geo_key: Option<u16>,
}

impl GeoKeyDirectory {
    /// Each field holds the value of the last of the first `n` entries of `s` with its key.
    pub open spec fn holds(&self, s: Seq<(GeoKeyTag, ValueView)>, n: int) -> bool {
        &&& self.model_type == geo_u16(s, n, GeoKeyTag::ModelType)
        &&& self.raster_type == geo_u16(s, n, GeoKeyTag::RasterType)
        &&& opt_str(self.citation) == geo_string(s, n, GeoKeyTag::Citation)
        &&& self.geographic_type == geo_u16(s, n, GeoKeyTag::GeographicType)
        &&& opt_str(self.geog_citation) == geo_string(s, n, GeoKeyTag::GeogCitation)
        &&& self.geog_geodetic_datum == geo_u16(s, n, GeoKeyTag::GeogGeodeticDatum)
        &&& self.geog_prime_meridian == geo_u16(s, n, GeoKeyTag::GeogPrimeMeridian)
        &&& self.geog_linear_units == geo_u16(s, n, GeoKeyTag::GeogLinearUnits)
        &&& self.geog_linear_unit_size == geo_f64(s, n, GeoKeyTag::GeogLinearUnitSize)
        &&& self.geog_angular_units == geo_u16(s, n, GeoKeyTag::GeogAngularUnits)
        &&& self.geog_angular_unit_size == geo_f64(s, n, GeoKeyTag::GeogAngularUnitSize)
        &&& self.geog_ellipsoid == geo_u16(s, n, GeoKeyTag::GeogEllipsoid)
        &&& self.geog_semi_major_axis == geo_f64(s, n, GeoKeyTag::GeogSemiMajorAxis)
        &&& self.geog_semi_minor_axis == geo_f64(s, n, GeoKeyTag::GeogSemiMinorAxis)
        &&& self.geog_inv_flattening == geo_f64(s, n, GeoKeyTag::GeogInvFlattening)
        &&& self.geog_azimuth_units == geo_u16(s, n, GeoKeyTag::GeogAzimuthUnits)
        &&& self.geog_prime_meridian_long == geo_f64(s, n, GeoKeyTag::GeogPrimeMeridianLong)
        &&& self.projected_type == geo_u16(s, n, GeoKeyTag::ProjectedType)
        &&& opt_str(self.proj_citation) == geo_string(s, n, GeoKeyTag::ProjCitation)
        &&& self.projection_geo_key == geo_u16(s, n, GeoKeyTag::Projection)
        &&& self.proj_coord_trans_geo_key == geo_u16(s, n, GeoKeyTag::ProjCoordTrans)
        &&& self.proj_linear_units_geo_key == geo_u16(s, n, GeoKeyTag::ProjLinearUnits)
        &&& self.proj_linear_unit_size_geo_key == geo_f64(s, n, GeoKeyTag::ProjLinearUnitSize)
        &&& self.proj_std_parallel1_geo_key == geo_f64(s, n, GeoKeyTag::ProjStdParallel1)
        &&& self.proj_std_parallel2_geo_key == geo_f64(s, n, GeoKeyTag::ProjStdParallel2)
        &&& self.proj_nat_origin_long_geo_key == geo_f64(s, n, GeoKeyTag::ProjNatOriginLong)
        &&& self.proj_nat_origin_lat_geo_key == geo_f64(s, n, GeoKeyTag::ProjNatOriginLat)
        &&& self.proj_false_easting_geo_key == geo_f64(s, n, GeoKeyTag::ProjFalseEasting)
        &&& self.proj_false_northing_geo_key == geo_f64(s, n, GeoKeyTag::ProjFalseNorthing)
        &&& self.proj_false_origin_long_geo_key == geo_f64(s, n, GeoKeyTag::ProjFalseOriginLong)
        &&& self.proj_false_origin_lat_geo_key == geo_f64(s, n, GeoKeyTag::ProjFalseOriginLat)
        &&& self.proj_false_origin_easting_geo_key == geo_f64(s, n, GeoKeyTag::ProjFalseOriginEasting)
        &&& self.proj_false_origin_northing_geo_key == geo_f64(s, n, GeoKeyTag::ProjFalseOriginNorthing)
        &&& self.proj_center_long_geo_key == geo_f64(s, n, GeoKeyTag::ProjCenterLong)
        &&& self.proj_center_lat_geo_key == geo_f64(s, n, GeoKeyTag::ProjCenterLat)
        &&& self.proj_center_easting_geo_key == geo_f64(s, n, GeoKeyTag::ProjCenterEasting)
        &&& self.proj_center_northing_geo_key == geo_f64(s, n, GeoKeyTag::ProjCenterNorthing)
        &&& self.proj_scale_at_nat_origin_geo_key == geo_f64(s, n, GeoKeyTag::ProjScaleAtNatOrigin)
        &&& self.proj_scale_at_center_geo_key == geo_f64(s, n, GeoKeyTag::ProjScaleAtCenter)
        &&& self.proj_azimuth_angle_geo_key == geo_f64(s, n, GeoKeyTag::ProjAzimuthAngle)
        &&& self.proj_straight_vert_pole_long_geo_key == geo_f64(s, n, GeoKeyTag::ProjStraightVertPoleLong)
        &&& self.vertical_geo_key == geo_u16(s, n, GeoKeyTag::Vertical)
        &&& opt_str(self.vertical_citation_geo_key) == geo_string(s, n, GeoKeyTag::VerticalCitation)
        &&& self.vertical_datum_geo_key == geo_u16(s, n, GeoKeyTag::VerticalDatum)
        &&& self.vertical_units_geo_key == geo_u16(s, n, GeoKeyTag::VerticalUnits)
    }

    fn empty() -> (r: GeoKeyDirectory)
        ensures
            forall|s: Seq<(GeoKeyTag, ValueView)>| r.holds(s, 0),
    {
        GeoKeyDirectory {
            model_type: None,
            raster_type: None,
            citation: None,
            geographic_type: None,
            geog_citation: None,
            geog_geodetic_datum: None,
            geog_prime_meridian: None,
            geog_linear_units: None,
            geog_linear_unit_size: None,
            geog_angular_units: None,
            geog_angular_unit_size: None,
            geog_ellipsoid: None,
            geog_semi_major_axis: None,
            geog_semi_minor_axis: None,
            geog_inv_flattening: None,
            geog_azimuth_units: None,
            geog_prime_meridian_long: None,
            projected_type: None,
            proj_citation: None,
            projection_geo_key: None,
            proj_coord_trans_geo_key: None,
            proj_linear_units_geo_key: None,
            proj_linear_unit_size_geo_key: None,
            proj_std_parallel1_geo_key: None,
            proj_std_parallel2_geo_key: None,
            proj_nat_origin_long_geo_key: None,
            proj_nat_origin_lat_geo_key: None,
            proj_false_easting_geo_key: None,
            proj_false_northing_geo_key: None,
            proj_false_origin_long_geo_key: None,
            proj_false_origin_lat_geo_key: None,
            proj_false_origin_easting_geo_key: None,
            proj_false_origin_northing_geo_key: None,
            proj_center_long_geo_key: None,
            proj_center_lat_geo_key: None,
            proj_center_easting_geo_key: None,
            proj_center_northing_geo_key: None,
            proj_scale_at_nat_origin_geo_key: None,
            proj_scale_at_center_geo_key: None,
            proj_azimuth_angle_geo_key: None,
            proj_straight_vert_pole_long_geo_key: None,
            vertical_geo_key: None,
            vertical_citation_geo_key: None,
            vertical_datum_geo_key: None,
            vertical_units_geo_key: None,
        }
    }

    /// Takes in entry `n` of `s`.
    #[verifier::rlimit(100)]
    fn absorb(&mut self, tag: GeoKeyTag, value: &Value, Ghost(s): Ghost<Seq<(GeoKeyTag, ValueView)>>, Ghost(n): Ghost<int>) -> (r: bool)
        requires
            0 <= n < s.len(),
            old(self).holds(s, n),
            s[n] == (tag, value@),
        ensures
            r == geo_entry_ok(tag, value@),
            r ==> final(self).holds(s, n + 1),
    {
        proof {
            lemma_geo_last_step(s, n);
        }
        match tag {
            GeoKeyTag::ModelType => match value.into_u16() {
                Some(x) => {
                    self.model_type = Some(x);
                },
                None => {
                    return false;
                },
            },
            GeoKeyTag::RasterType => match value.into_u16() {
                Some(x) => {
                    self.raster_type = Some(x);
                },
                None => {
                    return false;
                },
            },
            GeoKeyTag::Citation => match value.into_string() {
                Some(x) => {
                    self.citation = Some(x);
                },
                None => {
                    return false;
                },
            },
            GeoKeyTag::GeographicType => match value.into_u16() {
                Some(x) => {
                    self.geographic_type = Some(x);
                },
                None => {
                    return false;
                },
            },
            GeoKeyTag::GeogCitation => match value.into_string() {
                Some(x) => {
                    self.geog_citation = Some(x);
                },
                None => {
                    return false;
                },
            },
            GeoKeyTag::GeogGeodeticDatum => match value.into_u16() {
                Some(x) => {
                    self.geog_geodetic_datum = Some(x);
                },
                None => {
                    return false;
                },
            },
            GeoKeyTag::GeogPrimeMeridian => match value.into_u16() {
                Some(x) => {
                    self.geog_prime_meridian = Some(x);
                },
                None => {
                    return false;
                },
            },
            GeoKeyTag::GeogLinearUnits => match value.into_u16() {
                Some(x) => {
                    self.geog_linear_units = Some(x);
                },
                None => {
                    return false;
                },
            },
            GeoKeyTag::GeogLinearUnitSize => match value.into_f64_bits() {
                Some(x) => {
                    self.geog_linear_unit_size = Some(x);
                },
                None => {
                    return false;
                },
            },
            GeoKeyTag::GeogAngularUnits => match value.into_u16() {
                Some(x) => {
                    self.geog_angular_units = Some(x);
                },
                None => {
                    return false;
                },
            },
            GeoKeyTag::GeogAngularUnitSize => match value.into_f64_bits() {
                Some(x) => {
                    self.geog_angular_unit_size = Some(x);
                },
                None => {
                    return false;
                },
            },
            GeoKeyTag::GeogEllipsoid => match value.into_u16() {
                Some(x) => {
                    self.geog_ellipsoid = Some(x);
                },
                None => {
                    return false;
                },
            },
            GeoKeyTag::GeogSemiMajorAxis => match value.into_f64_bits() {
                Some(x) => {
                    self.geog_semi_major_axis = Some(x);
                },
                None => {
                    return false;
                },
            },
            GeoKeyTag::GeogSemiMinorAxis => match value.into_f64_bits() {
                Some(x) => {
                    self.geog_semi_minor_axis = Some(x);
                },
                None => {
                    return false;
                },
            },
            GeoKeyTag::GeogInvFlattening => match value.into_f64_bits() {
                Some(x) => {
                    self.geog_inv_flattening = Some(x);
                },
                None => {
                    return false;
                },
            },
            GeoKeyTag::GeogAzimuthUnits => match value.into_u16() {
                Some(x) => {
                    self.geog_azimuth_units = Some(x);
                },
                None => {
                    return false;
                },
            },
            GeoKeyTag::GeogPrimeMeridianLong => match value.into_f64_bits() {
                Some(x) => {
                    self.geog_prime_meridian_long = Some(x);
                },
                None => {
                    return false;
                },
            },
            GeoKeyTag::ProjectedType => match value.into_u16() {
                Some(x) => {
                    self.projected_type = Some(x);
                },
                None => {
                    return false;
                },
            },
            GeoKeyTag::ProjCitation => match value.into_string() {
                Some(x) => {
                    self.proj_citation = Some(x);
                },
                None => {
                    return false;
                },
            },
            GeoKeyTag::Projection => match value.into_u16() {
                Some(x) => {
                    self.projection_geo_key = Some(x);
                },
                None => {
                    return false;
                },
            },
            GeoKeyTag::ProjCoordTrans => match value.into_u16() {
                Some(x) => {
                    self.proj_coord_trans_geo_key = Some(x);
                },
                None => {
                    return false;
                },
            },
            GeoKeyTag::ProjLinearUnits => match value.into_u16() {
                Some(x) => {
                    self.proj_linear_units_geo_key = Some(x);
                },
                None => {
                    return false;
                },
            },
            GeoKeyTag::ProjLinearUnitSize => match value.into_f64_bits() {
                Some(x) => {
                    self.proj_linear_unit_size_geo_key = Some(x);
                },
                None => {
                    return false;
                },
            },
            GeoKeyTag::ProjStdParallel1 => match value.into_f64_bits() {
                Some(x) => {
                    self.proj_std_parallel1_geo_key = Some(x);
                },
                None => {
                    return false;
                },
            },
            GeoKeyTag::ProjStdParallel2 => match value.into_f64_bits() {
                Some(x) => {
                    self.proj_std_parallel2_geo_key = Some(x);
                },
                None => {
                    return false;
                },
            },
            GeoKeyTag::ProjNatOriginLong => match value.into_f64_bits() {
                Some(x) => {
                    self.proj_nat_origin_long_geo_key = Some(x);
                },
                None => {
                    return false;
                },
            },
            GeoKeyTag::ProjNatOriginLat => match value.into_f64_bits() {
                Some(x) => {
                    self.proj_nat_origin_lat_geo_key = Some(x);
                },
                None => {
                    return false;
                },
            },
            GeoKeyTag::ProjFalseEasting => match value.into_f64_bits() {
                Some(x) => {
                    self.proj_false_easting_geo_key = Some(x);
                },
                None => {
                    return false;
                },
            },
            GeoKeyTag::ProjFalseNorthing => match value.into_f64_bits() {
                Some(x) => {
                    self.proj_false_northing_geo_key = Some(x);
                },
                None => {
                    return false;
                },
            },
            GeoKeyTag::ProjFalseOriginLong => match value.into_f64_bits() {
                Some(x) => {
                    self.proj_false_origin_long_geo_key = Some(x);
                },
                None => {
                    return false;
                },
            },
            GeoKeyTag::ProjFalseOriginLat => match value.into_f64_bits() {
                Some(x) => {
                    self.proj_false_origin_lat_geo_key = Some(x);
                },
                None => {
                    return false;
                },
            },
            GeoKeyTag::ProjFalseOriginEasting => match value.into_f64_bits() {
                Some(x) => {
                    self.proj_false_origin_easting_geo_key = Some(x);
                },
                None => {
                    return false;
                },
            },
            GeoKeyTag::ProjFalseOriginNorthing => match value.into_f64_bits() {
                Some(x) => {
                    self.proj_false_origin_northing_geo_key = Some(x);
                },
                None => {
                    return false;
                },
            },
            GeoKeyTag::ProjCenterLong => match value.into_f64_bits() {
                Some(x) => {
                    self.proj_center_long_geo_key = Some(x);
                },
                None => {
                    return false;
                },
            },
            GeoKeyTag::ProjCenterLat => match value.into_f64_bits() {
                Some(x) => {
                    self.proj_center_lat_geo_key = Some(x);
                },
                None => {
                    return false;
                },
            },
            GeoKeyTag::ProjCenterEasting => match value.into_f64_bits() {
                Some(x) => {
                    self.proj_center_easting_geo_key = Some(x);
                },
                None => {
                    return false;
                },
            },
            GeoKeyTag::ProjCenterNorthing => match value.into_f64_bits() {
                Some(x) => {
                    self.proj_center_northing_geo_key = Some(x);
                },
                None => {
                    return false;
                },
            },
            GeoKeyTag::ProjScaleAtNatOrigin => match value.into_f64_bits() {
                Some(x) => {
                    self.proj_scale_at_nat_origin_geo_key = Some(x);
                },
                None => {
                    return false;
                },
            },
            GeoKeyTag::ProjScaleAtCenter => match value.into_f64_bits() {
                Some(x) => {
                    self.proj_scale_at_center_geo_key = Some(x);
                },
                None => {
                    return false;
                },
            },
            GeoKeyTag::ProjAzimuthAngle => match value.into_f64_bits() {
                Some(x) => {
                    self.proj_azimuth_angle_geo_key = Some(x);
                },
                None => {
                    return false;
                },
            },
            GeoKeyTag::ProjStraightVertPoleLong => match value.into_f64_bits() {
                Some(x) => {
                    self.proj_straight_vert_pole_long_geo_key = Some(x);
                },
                None => {
                    return false;
                },
            },
            GeoKeyTag::Vertical => match value.into_u16() {
                Some(x) => {
                    self.vertical_geo_key = Some(x);
                },
                None => {
                    return false;
                },
            },
            GeoKeyTag::VerticalCitation => match value.into_string() {
                Some(x) => {
                    self.vertical_citation_geo_key = Some(x);
                },
                None => {
                    return false;
                },
            },
            GeoKeyTag::VerticalDatum => match value.into_u16() {
                Some(x) => {
                    self.vertical_datum_geo_key = Some(x);
                },
                None => {
                    return false;
                },
            },
            GeoKeyTag::VerticalUnits => match value.into_u16() {
                Some(x) => {
                    self.vertical_units_geo_key = Some(x);
                },
                None => {
                    return false;
                },
            },
        }
        true
    }

    /// The EPSG code of the image's CRS: the projected type if there is one, else the
    /// geographic type.
    pub fn epsg_code(&self) -> (r: Option<u16>)
        ensures
            r == if self.projected_type is Some { self.projected_type } else { self.geographic_type },
    {
        match self.projected_type {
            Some(p) => Some(p),
            None => self.geographic_type,
        }
    }

    /// The ModelType key.
    pub fn model_type(&self) -> (r: Option<u16>)
        ensures
            r == self.model_type,
    {
        self.model_type
    }

    /// The RasterType key.
    pub fn raster_type(&self) -> (r: Option<u16>)
        ensures
            r == self.raster_type,
    {
        self.raster_type
    }

    /// The Citation key.
    pub fn citation(&self) -> (r: Option<&str>)
        ensures
            r matches Some(x) ==> self.citation matches Some(y) && x@ == y@,
            r is None <==> self.citation is None,
    {
        match &self.citation {
            Some(x) => Some(x.as_str()),
            None => None,
        }
    }

    /// The GeographicType key.
    pub fn geographic_type(&self) -> (r: Option<u16>)
        ensures
            r == self.geographic_type,
    {
        self.geographic_type
    }

    /// The GeogCitation key.
    pub fn geog_citation(&self) -> (r: Option<&str>)
        ensures
            r matches Some(x) ==> self.geog_citation matches Some(y) && x@ == y@,
            r is None <==> self.geog_citation is None,
    {
        match &self.geog_citation {
            Some(x) => Some(x.as_str()),
            None => None,
        }
    }

    /// The GeogGeodeticDatum key.
    pub fn geog_geodetic_datum(&self) -> (r: Option<u16>)
        ensures
            r == self.geog_geodetic_datum,
    {
        self.geog_geodetic_datum
    }

    /// The GeogPrimeMeridian key.
    pub fn geog_prime_meridian(&self) -> (r: Option<u16>)
        ensures
            r == self.geog_prime_meridian,
    {
        self.geog_prime_meridian
    }

    /// The GeogLinearUnits key.
    pub fn geog_linear_units(&self) -> (r: Option<u16>)
        ensures
            r == self.geog_linear_units,
    {
        self.geog_linear_units
    }

    /// The GeogLinearUnitSize key (bit pattern of a double).
    pub fn geog_linear_unit_size(&self) -> (r: Option<u64>)
        ensures
            r == self.geog_linear_unit_size,
    {
        self.geog_linear_unit_size
    }

    /// The GeogAngularUnits key.
    pub fn geog_angular_units(&self) -> (r: Option<u16>)
        ensures
            r == self.geog_angular_units,
    {
        self.geog_angular_units
    }

    /// The GeogAngularUnitSize key (bit pattern of a double).
    pub fn geog_angular_unit_size(&self) -> (r: Option<u64>)
        ensures
            r == self.geog_angular_unit_size,
    {
        self.geog_angular_unit_size
    }

    /// The GeogEllipsoid key.
    pub fn geog_ellipsoid(&self) -> (r: Option<u16>)
        ensures
            r == self.geog_ellipsoid,
    {
        self.geog_ellipsoid
    }

    /// The GeogSemiMajorAxis key (bit pattern of a double).
    pub fn geog_semi_major_axis(&self) -> (r: Option<u64>)
        ensures
            r == self.geog_semi_major_axis,
    {
        self.geog_semi_major_axis
    }

    /// The GeogSemiMinorAxis key (bit pattern of a double).
    pub fn geog_semi_minor_axis(&self) -> (r: Option<u64>)
        ensures
            r == self.geog_semi_minor_axis,
    {
        self.geog_semi_minor_axis
    }

    /// The GeogInvFlattening key (bit pattern of a double).
    pub fn geog_inv_flattening(&self) -> (r: Option<u64>)
        ensures
            r == self.geog_inv_flattening,
    {
        self.geog_inv_flattening
    }

    /// The GeogAzimuthUnits key.
    pub fn geog_azimuth_units(&self) -> (r: Option<u16>)
        ensures
            r == self.geog_azimuth_units,
    {
        self.geog_azimuth_units
    }

    /// The GeogPrimeMeridianLong key (bit pattern of a double).
    pub fn geog_prime_meridian_long(&self) -> (r: Option<u64>)
        ensures
            r == self.geog_prime_meridian_long,
    {
        self.geog_prime_meridian_long
    }

    /// The ProjectedType key.
    pub fn projected_type(&self) -> (r: Option<u16>)
        ensures
            r == self.projected_type,
    {
        self.projected_type
    }

    /// The ProjCitation key.
    pub fn proj_citation(&self) -> (r: Option<&str>)
        ensures
            r matches Some(x) ==> self.proj_citation matches Some(y) && x@ == y@,
            r is None <==> self.proj_citation is None,
    {
        match &self.proj_citation {
            Some(x) => Some(x.as_str()),
            None => None,
        }
    }

    /// The Projection key.
    pub fn projection_geo_key(&self) -> (r: Option<u16>)
        ensures
            r == self.projection_geo_key,
    {
        self.projection_geo_key
    }

    /// The ProjCoordTrans key.
    pub fn proj_coord_trans_geo_key(&self) -> (r: Option<u16>)
        ensures
            r == self.proj_coord_trans_geo_key,
    {
        self.proj_coord_trans_geo_key
    }

    /// The ProjLinearUnits key.
    pub fn proj_linear_units_geo_key(&self) -> (r: Option<u16>)
        ensures
            r == self.proj_linear_units_geo_key,
    {
        self.proj_linear_units_geo_key
    }

    /// The ProjLinearUnitSize key (bit pattern of a double).
    pub fn proj_linear_unit_size_geo_key(&self) -> (r: Option<u64>)
        ensures
            r == self.proj_linear_unit_size_geo_key,
    {
        self.proj_linear_unit_size_geo_key
    }

    /// The ProjStdParallel1 key (bit pattern of a double).
    pub fn proj_std_parallel1_geo_key(&self) -> (r: Option<u64>)
        ensures
            r == self.proj_std_parallel1_geo_key,
    {
        self.proj_std_parallel1_geo_key
    }

    /// The ProjStdParallel2 key (bit pattern of a double).
    pub fn proj_std_parallel2_geo_key(&self) -> (r: Option<u64>)
        ensures
            r == self.proj_std_parallel2_geo_key,
    {
        self.proj_std_parallel2_geo_key
    }

    /// The ProjNatOriginLong key (bit pattern of a double).
    pub fn proj_nat_origin_long_geo_key(&self) -> (r: Option<u64>)
        ensures
            r == self.proj_nat_origin_long_geo_key,
    {
        self.proj_nat_origin_long_geo_key
    }

    /// The ProjNatOriginLat key (bit pattern of a double).
    pub fn proj_nat_origin_lat_geo_key(&self) -> (r: Option<u64>)
        ensures
            r == self.proj_nat_origin_lat_geo_key,
    {
        self.proj_nat_origin_lat_geo_key
    }

    /// The ProjFalseEasting key (bit pattern of a double).
    pub fn proj_false_easting_geo_key(&self) -> (r: Option<u64>)
        ensures
            r == self.proj_false_easting_geo_key,
    {
        self.proj_false_easting_geo_key
    }

    /// The ProjFalseNorthing key (bit pattern of a double).
    pub fn proj_false_northing_geo_key(&self) -> (r: Option<u64>)
        ensures
            r == self.proj_false_northing_geo_key,
    {
        self.proj_false_northing_geo_key
    }

    /// The ProjFalseOriginLong key (bit pattern of a double).
    pub fn proj_false_origin_long_geo_key(&self) -> (r: Option<u64>)
        ensures
            r == self.proj_false_origin_long_geo_key,
    {
        self.proj_false_origin_long_geo_key
    }

    /// The ProjFalseOriginLat key (bit pattern of a double).
    pub fn proj_false_origin_lat_geo_key(&self) -> (r: Option<u64>)
        ensures
            r == self.proj_false_origin_lat_geo_key,
    {
        self.proj_false_origin_lat_geo_key
    }

    /// The ProjFalseOriginEasting key (bit pattern of a double).
    pub fn proj_false_origin_easting_geo_key(&self) -> (r: Option<u64>)
        ensures
            r == self.proj_false_origin_easting_geo_key,
    {
        self.proj_false_origin_easting_geo_key
    }

    /// The ProjFalseOriginNorthing key (bit pattern of a double).
    pub fn proj_false_origin_northing_geo_key(&self) -> (r: Option<u64>)
        ensures
            r == self.proj_false_origin_northing_geo_key,
    {
        self.proj_false_origin_northing_geo_key
    }

    /// The ProjCenterLong key (bit pattern of a double).
    pub fn proj_center_long_geo_key(&self) -> (r: Option<u64>)
        ensures
            r == self.proj_center_long_geo_key,
    {
        self.proj_center_long_geo_key
    }

    /// The ProjCenterLat key (bit pattern of a double).
    pub fn proj_center_lat_geo_key(&self) -> (r: Option<u64>)
        ensures
            r == self.proj_center_lat_geo_key,
    {
        self.proj_center_lat_geo_key
    }

    /// The ProjCenterEasting key (bit pattern of a double).
    pub fn proj_center_easting_geo_key(&self) -> (r: Option<u64>)
        ensures
            r == self.proj_center_easting_geo_key,
    {
        self.proj_center_easting_geo_key
    }

    /// The ProjCenterNorthing key (bit pattern of a double).
    pub fn proj_center_northing_geo_key(&self) -> (r: Option<u64>)
        ensures
            r == self.proj_center_northing_geo_key,
    {
        self.proj_center_northing_geo_key
    }

    /// The ProjScaleAtNatOrigin key (bit pattern of a double).
    pub fn proj_scale_at_nat_origin_geo_key(&self) -> (r: Option<u64>)
        ensures
            r == self.proj_scale_at_nat_origin_geo_key,
    {
        self.proj_scale_at_nat_origin_geo_key
    }

    /// The ProjScaleAtCenter key (bit pattern of a double).
    pub fn proj_scale_at_center_geo_key(&self) -> (r: Option<u64>)
        ensures
            r == self.proj_scale_at_center_geo_key,
    {
        self.proj_scale_at_center_geo_key
    }

    /// The ProjAzimuthAngle key (bit pattern of a double).
    pub fn proj_azimuth_angle_geo_key(&self) -> (r: Option<u64>)
        ensures
            r == self.proj_azimuth_angle_geo_key,
    {
        self.proj_azimuth_angle_geo_key
    }

    /// The ProjStraightVertPoleLong key (bit pattern of a double).
    pub fn proj_straight_vert_pole_long_geo_key(&self) -> (r: Option<u64>)
        ensures
            r == self.proj_straight_vert_pole_long_geo_key,
    {
        self.proj_straight_vert_pole_long_geo_key
    }

    /// The Vertical key.
    pub fn vertical_geo_key(&self) -> (r: Option<u16>)
        ensures
            r == self.vertical_geo_key,
    {
        self.vertical_geo_key
    }

    /// The VerticalCitation key.
    pub fn vertical_citation_geo_key(&self) -> (r: Option<&str>)
        ensures
            r matches Some(x) ==> self.vertical_citation_geo_key matches Some(y) && x@ == y@,
            r is None <==> self.vertical_citation_geo_key is None,
    {
        match &self.vertical_citation_geo_key {
            Some(x) => Some(x.as_str()),
            None => None,
        }
    }

    /// The VerticalDatum key.
    pub fn vertical_datum_geo_key(&self) -> (r: Option<u16>)
        ensures
            r == self.vertical_datum_geo_key,
    {
        self.vertical_datum_geo_key
    }

    /// The VerticalUnits key.
    pub fn vertical_units_geo_key(&self) -> (r: Option<u16>)
        ensures
            r == self.vertical_units_geo_key,
    {
        self.vertical_units_geo_key
    }

}

impl GeoKeyDirectory {
    /// This directory holds what directory `d` gives with the parameters `ascii` and
    /// `doubles`: each field is the value of the last key of its kind.
    pub open spec fn describes(&self, d: Seq<u16>, ascii: Option<Seq<char>>, doubles: Option<Seq<u64>>) -> bool {
        &&& geo_valid(d, ascii, doubles)
        &&& self.holds(geo_entries(d, d[3] as int, ascii, doubles)->Ok_0, geo_entries(d, d[3] as int, ascii, doubles)->Ok_0.len() as int)
    }

    /// Parses a GeoKeyDirectory out of the shorts of GeoKeyDirectoryTag and the values of
    /// GeoAsciiParamsTag and GeoDoubleParamsTag; `None` where it is malformed.
    pub fn from_raw(data: &Vec<u16>, ascii: &Option<String>, doubles: &Option<Vec<u64>>) -> (r: Option<GeoKeyDirectory>)
        ensures
            r is Some <==> geo_valid(data@, opt_str(*ascii), opt_seq(*doubles)),
            r matches Some(g) ==> g.describes(data@, opt_str(*ascii), opt_seq(*doubles)),
    {
        let entries = match parse_geo_keys(data, ascii, doubles) {
            Some(e) => e,
            None => {
                return None;
            },
        };
        let ghost s = entries@.map_values(|p: (GeoKeyTag, Value)| (p.0, p.1@));
        let mut g = GeoKeyDirectory::empty();
        let mut i: usize = 0;
        assert(geo_entries(data@, data@[3] as int, opt_str(*ascii), opt_seq(*doubles)) == Ok::<Seq<(GeoKeyTag, ValueView)>, ()>(s));
        while i < entries.len()
            invariant
                i <= entries@.len(),
                s == entries@.map_values(|p: (GeoKeyTag, Value)| (p.0, p.1@)),
                geo_header_ok(data@),
                geo_entries(data@, data@[3] as int, opt_str(*ascii), opt_seq(*doubles)) == Ok::<Seq<(GeoKeyTag, ValueView)>, ()>(s),
                g.holds(s, i as int),
                forall|j: int| 0 <= j < i ==> geo_entry_ok(#[trigger] s[j].0, s[j].1),
            decreases entries@.len() - i,
        {
            let (tag, value) = &entries[i];
            if !g.absorb(*tag, value, Ghost(s), Ghost(i as int)) {
                proof {
                    assert(!geo_entry_ok(s[i as int].0, s[i as int].1));
                    assert(!geo_entries_ok(s));
                }
                return None;
            }
            i += 1;
        }
        Some(g)
    }
}

/// Reads the value of key `k`, whose shorts are `id`, `loc`, `count` and `off`.
fn geo_key_value(
    id: u16,
    loc: u16,
    count: u16,
    off: u16,
    ascii: &Option<Vec<u8>>,
    doubles: &Option<Vec<u64>>,
) -> (r: Result<Option<(GeoKeyTag, Value)>, ()>)
    ensures
        forall|d: Seq<u16>, k: int, a: Option<Seq<char>>|
            #![trigger geo_key_entry(d, k, a, opt_seq(*doubles))]
            0 <= k && 4 + 4 * k + 4 <= d.len() && d[4 + 4 * k] == id && d[5 + 4 * k] == loc && d[6 + 4 * k] == count
                && d[7 + 4 * k] == off && (ascii matches Some(b) ==> a matches Some(c) && vstd::utf8::is_ascii_chars(c) && b@
                == char_bytes(c)) && (ascii is None ==> a is None || !vstd::utf8::is_ascii_chars(a->0)) ==> match r {
                Ok(Some((t, v))) => geo_key_entry(d, k, a, opt_seq(*doubles)) == Ok::<Option<(GeoKeyTag, ValueView)>, ()>(Some((t, v@))),
                Ok(None) => geo_key_entry(d, k, a, opt_seq(*doubles)) == Ok::<Option<(GeoKeyTag, ValueView)>, ()>(None),
                Err(()) => geo_key_entry(d, k, a, opt_seq(*doubles)) == Err::<Option<(GeoKeyTag, ValueView)>, ()>(()),
            },
{
    let t = match GeoKeyTag::from_u16(id) {
        Some(t) => t,
        None => {
            return Ok(None);
        },
    };
    let start = off as usize;
    let end = off as usize + count as usize;
    if loc == 0 {
        Ok(Some((t, Value::Short(off))))
    } else if loc == GEO_ASCII_PARAMS {
        match ascii {
            Some(a) => {
                if end > a.len() {
                    return Err(());
                }
                let mut last = end;
                if end > start && a[end - 1] == PIPE {
                    last = end - 1;
                }
                let mut bytes: Vec<u8> = Vec::new();
                let mut i = start;
                while i < last
                    invariant
                        start <= i <= last <= end <= a@.len(),
                        bytes@ == a@.subrange(start as int, i as int),
                    decreases last - i,
                {
                    bytes.push(a[i]);
                    i += 1;
                    proof {
                        assert(bytes@ =~= a@.subrange(start as int, i as int));
                    }
                }
                proof {
                    assert(strip_pipe(a@.subrange(start as int, end as int)) =~= bytes@);
                }
                match string_from_utf8(bytes) {
                    Some(text) => Ok(Some((t, Value::Ascii(text)))),
                    None => Err(()),
                }
            },
            None => Err(()),
        }
    } else if loc == GEO_DOUBLE_PARAMS {
        match doubles {
            Some(ds) => {
                if end > ds.len() {
                    return Err(());
                }
                if count == 1 {
                    return Ok(Some((t, Value::Double(ds[start]))));
                }
                let mut items: Vec<Value> = Vec::new();
                let mut i = start;
                while i < end
                    invariant
                        start <= i <= end <= ds@.len(),
                        items@.len() == i - start,
                        forall|j: int| 0 <= j < i - start ==> (#[trigger] items@[j]).scalar_view() == ValueView::Double(ds@[start + j]),
                    decreases end - i,
                {
                    items.push(Value::Double(ds[i]));
                    i += 1;
                }
                proof {
                    assert(items@.map_values(|x: Value| x.scalar_view()) =~= Seq::new(
                        count as nat,
                        |j: int| ValueView::Double(ds@[start + j]),
                    ));
                }
                Ok(Some((t, Value::List(items))))
            },
            None => Err(()),
        }
    } else {
        Ok(None)
    }
}

/// Reads the known keys of a GeoKeyDirectory, in order.
fn parse_geo_keys(data: &Vec<u16>, ascii: &Option<String>, doubles: &Option<Vec<u64>>) -> (r: Option<Vec<(GeoKeyTag, Value)>>)
    ensures
        r matches Some(v) ==> geo_header_ok(data@) && geo_entries(data@, data@[3] as int, opt_str(*ascii), opt_seq(*doubles))
            == Ok::<Seq<(GeoKeyTag, ValueView)>, ()>(v@.map_values(|p: (GeoKeyTag, Value)| (p.0, p.1@))),
        r is None ==> !geo_header_ok(data@) || geo_entries(data@, data@[3] as int, opt_str(*ascii), opt_seq(*doubles)) is Err,
{
    if data.len() < 4 || data[0] != 1 || data[1] != 1 {
        return None;
    }
    let nkeys = data[3] as usize;
    if data.len() < 4 + 4 * nkeys {
        return None;
    }
    let ghost a = opt_str(*ascii);
    let ascii_bytes: Option<Vec<u8>> = match ascii {
        Some(text) => {
            let st = text.as_str();
            if st.is_ascii() {
                let b = st.as_bytes();
                proof {
                    assert(b@ =~= char_bytes(text@));
                }
                Some(slice_to_vec(b))
            } else {
                None
            }
        },
        None => None,
    };
    let mut out: Vec<(GeoKeyTag, Value)> = Vec::new();
    proof {
        assert(out@.map_values(|p: (GeoKeyTag, Value)| (p.0, p.1@)) =~= Seq::<(GeoKeyTag, ValueView)>::empty());
    }
    let mut k: usize = 0;
    while k < nkeys
        invariant
            k <= nkeys,
            nkeys == data@[3],
            geo_header_ok(data@),
            a == opt_str(*ascii),
            ascii_bytes matches Some(b) ==> a matches Some(c) && vstd::utf8::is_ascii_chars(c) && b@ == char_bytes(c),
            ascii_bytes is None ==> a is None || !vstd::utf8::is_ascii_chars(a->0),
            geo_entries(data@, k as int, a, opt_seq(*doubles)) == Ok::<Seq<(GeoKeyTag, ValueView)>, ()>(
                out@.map_values(|p: (GeoKeyTag, Value)| (p.0, p.1@)),
            ),
        decreases nkeys - k,
    {
        let base = 4 + 4 * k;
        let res = geo_key_value(data[base], data[base + 1], data[base + 2], data[base + 3], &ascii_bytes, doubles);
        proof {
            assert(geo_key_entry(data@, k as int, a, opt_seq(*doubles)) == geo_key_entry(data@, k as int, a, opt_seq(*doubles)));
        }
        match res {
            Ok(Some(e)) => {
                let ghost prev = out@.map_values(|p: (GeoKeyTag, Value)| (p.0, p.1@));
                out.push(e);
                proof {
                    assert(out@.map_values(|p: (GeoKeyTag, Value)| (p.0, p.1@)) =~= prev.push((e.0, e.1@)));
                }
            },
            Ok(None) => {},
            Err(()) => {
                proof {
                    lemma_geo_entries_err_stays(data@, k as int + 1, nkeys as int, a, opt_seq(*doubles));
                }
                return None;
            },
        }
        k += 1;
    }
    Some(out)
}

proof fn lemma_geo_entries_err_stays(d: Seq<u16>, k: int, n: int, a: Option<Seq<char>>, ds: Option<Seq<u64>>)
    requires
        0 < k <= n,
        geo_entries(d, k, a, ds) is Err,
    ensures
        geo_entries(d, n, a, ds) is Err,
    decreases n - k,
{
    if k < n {
        lemma_geo_entries_err_stays(d, k + 1, n, a, ds);
    }
}


} // verus!
