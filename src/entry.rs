//! Decoding of one IFD entry: its tag, field type, count and value.
//!
//! An entry is 12 bytes in a classic TIFF (tag 2, type 2, count 4, value-or-offset 4) and
//! 20 bytes in a BigTIFF (tag 2, type 2, count 8, value-or-offset 8). Where the value's
//! bytes fit in the value-or-offset field they stand there; otherwise that field holds the
//! offset at which they stand.
use vstd::prelude::*;

use crate::endian::{
    lemma_u32_at_bound, lemma_u64_at_bound, read_u16, read_u32, read_u64,
    u16_at, u32_at, u64_at, Endianness,
};
use crate::error::{format_err, AsyncTiffError, AsyncTiffResult, TiffError, TiffFormatError};
use crate::tags::{Tag, Type};
use crate::value::{Value, ValueView};

verus! {

/// Bytes taken by one IFD entry.
pub open spec fn entry_size(bigtiff: bool) -> int {
    if bigtiff { 20 } else { 12 }
}

/// Bytes taken by the value-or-offset field of an entry.
pub open spec fn field_size(bigtiff: bool) -> int {
    if bigtiff { 8 } else { 4 }
}

/// Where the value-or-offset field stands within an entry.
pub open spec fn field_start(bigtiff: bool) -> int {
    if bigtiff { 12 } else { 8 }
}

/// The index of the first NUL in `s[i..end]`, or `end` if there is none.
pub open spec fn nul_from(s: Seq<u8>, i: int, end: int) -> int
    decreases end - i,
{
    if i >= end {
        end
    } else if s[i] == 0 {
        i
    } else {
        nul_from(s, i + 1, end)
    }
}

/// The characters of ASCII bytes.
pub open spec fn ascii_chars(b: Seq<u8>) -> Seq<char> {
    b.map_values(|x: u8| x as char)
}

/// Every byte of `s[a..b]` is ASCII.
pub open spec fn all_ascii(s: Seq<u8>, a: int, b: int) -> bool {
    forall|k: int| a <= k < b ==> #[trigger] s[k] < 128
}

/// The element of type `t` stored at `s[i..]`.
#[verifier::opaque]
pub open spec fn element_at(t: Type, s: Seq<u8>, i: int, e: Endianness) -> ValueView {
    match t {
        Type::BYTE | Type::UNDEFINED | Type::ASCII => ValueView::Byte(s[i]),
        Type::SBYTE => ValueView::SignedByte(s[i] as i8),
        Type::SHORT => ValueView::Short(u16_at(s, i, e) as u16),
        Type::SSHORT => ValueView::SignedShort(u16_at(s, i, e) as i16),
        Type::LONG => ValueView::Unsigned(u32_at(s, i, e) as u32),
        Type::SLONG => ValueView::Signed(u32_at(s, i, e) as i32),
        Type::FLOAT => ValueView::Float(u32_at(s, i, e) as u32),
        Type::IFD => ValueView::Ifd(u32_at(s, i, e) as u32),
        Type::RATIONAL => ValueView::Rational(u32_at(s, i, e) as u32, u32_at(s, i + 4, e) as u32),
        Type::SRATIONAL => ValueView::SRational(u32_at(s, i, e) as i32, u32_at(s, i + 4, e) as i32),
        Type::DOUBLE => ValueView::Double(u64_at(s, i, e) as u64),
        Type::LONG8 => ValueView::UnsignedBig(u64_at(s, i, e) as u64),
        Type::SLONG8 => ValueView::SignedBig(u64_at(s, i, e) as i64),
        Type::IFD8 => ValueView::IfdBig(u64_at(s, i, e) as u64),
    }
}

/// The value of `count >= 1` elements of type `t` stored at `s[start..]`; `None` for an ASCII
/// value that holds a non-ASCII byte before its first NUL.
///
/// ASCII is one string, cut at its first NUL. Otherwise one element is a scalar and more
/// are a list.
pub open spec fn value_from_bytes(t: Type, count: int, s: Seq<u8>, start: int, e: Endianness) -> Option<ValueView> {
    if t == Type::ASCII {
        let k = nul_from(s, start, start + count);
        if all_ascii(s, start, k) {
            Some(ValueView::Ascii(ascii_chars(s.subrange(start, k))))
        } else {
            None
        }
    } else if count == 1 {
        Some(element_at(t, s, start, e))
    } else {
        Some(ValueView::List(Seq::new(count as nat, |k: int| element_at(t, s, start + k * t.spec_size(), e))))
    }
}

/// The offset read from the value-or-offset field that starts at `s[f..]`.
pub open spec fn offset_at(s: Seq<u8>, f: int, e: Endianness, bigtiff: bool) -> int {
    if bigtiff { u64_at(s, f, e) } else { u32_at(s, f, e) }
}

/// The count read from the entry at `s[off..]`.
pub open spec fn count_at(s: Seq<u8>, off: int, e: Endianness, bigtiff: bool) -> int {
    if bigtiff { u64_at(s, off + 4, e) } else { u32_at(s, off + 4, e) }
}

/// Where the value bytes of an entry stand: in its field if they fit there, else at the
/// offset that the field holds.
pub open spec fn value_start(s: Seq<u8>, off: int, n: int, e: Endianness, bigtiff: bool) -> int {
    if n <= field_size(bigtiff) {
        off + field_start(bigtiff)
    } else {
        offset_at(s, off + field_start(bigtiff), e, bigtiff)
    }
}

/// The value of an entry of type `t` and count `count` whose value-or-offset field starts
/// at `s[f..]`.
pub open spec fn entry_value(s: Seq<u8>, f: int, t: Type, count: int, e: Endianness, bigtiff: bool) -> Result<ValueView, AsyncTiffError> {
    let n = count * t.spec_size();
    let start = if n <= field_size(bigtiff) { f } else { offset_at(s, f, e, bigtiff) };
    if count == 0 {
        Ok(ValueView::List(Seq::empty()))
    } else if n > u64::MAX {
        Err(AsyncTiffError::InternalTIFFError(TiffError::IntSizeError))
    } else if start + n > s.len() {
        Err(AsyncTiffError::EndOfFile(start as u64, n as u64))
    } else {
        match value_from_bytes(t, count, s, start, e) {
            Some(v) => Ok(v),
            None => Err(format_err(TiffFormatError::InvalidTag)),
        }
    }
}

/// The tag and value of the IFD entry at `s[off..]`, where `s` holds the bytes of a file
/// from its start.
pub open spec fn entry_at(s: Seq<u8>, off: int, e: Endianness, bigtiff: bool) -> Result<(Tag, ValueView), AsyncTiffError> {
    if off + entry_size(bigtiff) > s.len() {
        Err(AsyncTiffError::EndOfFile(off as u64, entry_size(bigtiff) as u64))
    } else {
        let code = u16_at(s, off + 2, e) as u16;
        match Type::spec_from_u16(code) {
            None => Err(format_err(TiffFormatError::UnknownTagType(code))),
            Some(t) => match entry_value(s, off + field_start(bigtiff), t, count_at(s, off, e, bigtiff), e, bigtiff) {
                Ok(v) => Ok((Tag::spec_from_u16(u16_at(s, off, e) as u16), v)),
                Err(err) => Err(err),
            },
        }
    }
}

/// Reads one element of type `t` at `s[i..]`.
fn read_element(t: Type, s: &[u8], i: usize, e: Endianness) -> (r: Value)
    requires
        i + t.spec_size() <= s@.len(),
    ensures
        r.scalar_view() == element_at(t, s@, i as int, e),
        r@ == r.scalar_view(),
{
    reveal(element_at);
    let _len = s.len();
    match t {
        Type::BYTE | Type::UNDEFINED | Type::ASCII => Value::Byte(s[i]),
        Type::SBYTE => Value::SignedByte(s[i] as i8),
        Type::SHORT => Value::Short(read_u16(s, i, e)),
        Type::SSHORT => Value::SignedShort(read_u16(s, i, e) as i16),
        Type::LONG => Value::Unsigned(read_u32(s, i, e)),
        Type::SLONG => Value::Signed(read_u32(s, i, e) as i32),
        Type::FLOAT => Value::Float(read_u32(s, i, e)),
        Type::IFD => Value::Ifd(read_u32(s, i, e)),
        Type::RATIONAL => Value::Rational(read_u32(s, i, e), read_u32(s, i + 4, e)),
        Type::SRATIONAL => Value::SRational(read_u32(s, i, e) as i32, read_u32(s, i + 4, e) as i32),
        Type::DOUBLE => Value::Double(read_u64(s, i, e)),
        Type::LONG8 => Value::UnsignedBig(read_u64(s, i, e)),
        Type::SLONG8 => Value::SignedBig(read_u64(s, i, e) as i64),
        Type::IFD8 => Value::IfdBig(read_u64(s, i, e)),
    }
}

/// Relies on `String::from_utf8`: ASCII bytes are valid UTF-8, each byte one char of the
/// same code.
#[verifier::external_body]
pub(crate) fn string_from_utf8(bytes: Vec<u8>) -> (r: Option<String>)
    ensures
        all_ascii(bytes@, 0, bytes@.len() as int) ==> (r is Some && r->0@ == ascii_chars(bytes@)),
{
    String::from_utf8(bytes).ok()
}

/// Reads an ASCII value of `count` bytes at `s[start..]`, cut at its first NUL.
fn read_ascii(s: &[u8], start: usize, count: usize) -> (r: Option<String>)
    requires
        start + count <= s@.len(),
    ensures
        value_from_bytes(Type::ASCII, count as int, s@, start as int, Endianness::LittleEndian)
            matches Some(v) ==> r matches Some(st) && v == ValueView::Ascii(st@),
        value_from_bytes(Type::ASCII, count as int, s@, start as int, Endianness::LittleEndian)
            is None ==> r is None,
{
    let _len = s.len();
    let end = start + count;
    let mut bytes: Vec<u8> = Vec::new();
    let mut i = start;
    while i < end && s[i] != 0
        invariant
            start <= i <= end,
            end <= s@.len(),
            end == start + count,
            nul_from(s@, start as int, end as int) == nul_from(s@, i as int, end as int),
            bytes@ == s@.subrange(start as int, i as int),
            all_ascii(s@, start as int, i as int),
        decreases end - i,
    {
        if s[i] >= 128 {
            proof {
                lemma_nul_from_bounds(s@, i as int + 1, end as int);
                assert(nul_from(s@, i as int, end as int) > i);
                assert(!all_ascii(s@, start as int, nul_from(s@, start as int, end as int)));
            }
            return None;
        }
        bytes.push(s[i]);
        i += 1;
        proof {
            assert(bytes@ =~= s@.subrange(start as int, i as int));
        }
    }
    proof {
        assert(nul_from(s@, i as int, end as int) == i);
    }
    string_from_utf8(bytes)
}

proof fn lemma_nul_from_bounds(s: Seq<u8>, i: int, end: int)
    requires
        i <= end,
    ensures
        i <= nul_from(s, i, end) <= end,
    decreases end - i,
{
    if i < end && s[i] != 0 {
        lemma_nul_from_bounds(s, i + 1, end);
    }
}

/// Reads `cnt` elements of type `t` that stand one after another at `data[st..]`.
fn read_list(tag_type: Type, data: &[u8], st: usize, cnt: usize, endianness: Endianness) -> (items: Vec<Value>)
    requires
        st + cnt * tag_type.spec_size() <= data@.len(),
    ensures
        items@.map_values(|x: Value| x.scalar_view()) == Seq::new(
            cnt as nat,
            |j: int| element_at(tag_type, data@, st + j * tag_type.spec_size(), endianness),
        ),
{
    let sz = tag_type.size() as usize;
    let _dlen = data.len();
    let mut items: Vec<Value> = Vec::new();
    let mut k: usize = 0;
    let mut pos: usize = st;
    while k < cnt
        invariant
            k <= cnt,
            sz == tag_type.spec_size(),
            1 <= sz <= 8,
            st + cnt * sz <= data@.len() <= usize::MAX,
            pos == st + k * sz,
            items@.len() == k,
            forall|j: int| 0 <= j < k ==> (#[trigger] items@[j]).scalar_view() == element_at(tag_type, data@, st + j * sz, endianness),
        decreases cnt - k,
    {
        proof {
            assert(k * sz + sz <= cnt * sz) by (nonlinear_arith)
                requires k < cnt;
            assert((k + 1) * sz == k * sz + sz) by (nonlinear_arith);
        }
        items.push(read_element(tag_type, data, pos, endianness));
        k += 1;
        pos = pos + sz;
    }
    proof {
        let want = Seq::new(cnt as nat, |j: int| element_at(tag_type, data@, st + j * tag_type.spec_size(), endianness));
        assert(items@.map_values(|x: Value| x.scalar_view()) =~= want);
    }
    items
}

/// Reads the value of an entry of type `tag_type` with `count` elements, whose
/// value-or-offset field starts at `data[field_offset..]`.
#[verifier::rlimit(60)]
pub fn read_tag_value(
    data: &[u8],
    field_offset: u64,
    tag_type: Type,
    count: u64,
    endianness: Endianness,
    bigtiff: bool,
) -> (r: AsyncTiffResult<Value>)
    requires
        field_offset + field_size(bigtiff) <= data@.len(),
    ensures
        match r {
            Ok(v) => entry_value(data@, field_offset as int, tag_type, count as int, endianness, bigtiff) == Ok::<ValueView, AsyncTiffError>(v@),
            Err(err) => entry_value(data@, field_offset as int, tag_type, count as int, endianness, bigtiff) == Err::<ValueView, AsyncTiffError>(err),
        },
{
    let len = data.len() as u64;
    if count == 0 {
        let empty: Vec<Value> = Vec::new();
        proof {
            assert(empty@.map_values(|x: Value| x.scalar_view()) =~= Seq::<ValueView>::empty());
        }
        return Ok(Value::List(empty));
    }
    let size = tag_type.size();
    let n = match count.checked_mul(size) {
        Some(n) => n,
        None => {
            return Err(AsyncTiffError::InternalTIFFError(TiffError::IntSizeError));
        },
    };
    let field_len: u64 = if bigtiff { 8 } else { 4 };
    let f = field_offset as usize;
    let start = if n <= field_len {
        field_offset
    } else if bigtiff {
        read_u64(data, f, endianness)
    } else {
        read_u32(data, f, endianness) as u64
    };
    if start > len || n > len - start {
        return Err(AsyncTiffError::EndOfFile(start, n));
    }
    let st = start as usize;
    if tag_type == Type::ASCII {
        return match read_ascii(data, st, n as usize) {
            Some(text) => Ok(Value::Ascii(text)),
            None => Err(AsyncTiffError::InternalTIFFError(TiffError::FormatError(TiffFormatError::InvalidTag))),
        };
    }
    if count == 1 {
        let v = read_element(tag_type, data, st, endianness);
        return Ok(v);
    }
    let items = read_list(tag_type, data, st, count as usize, endianness);
    Ok(Value::List(items))
}

/// Reads the IFD entry at `data[tag_offset..]`, where `data` holds the bytes of a file from
/// its start: its tag and its value.
///
/// Only the entry's own bytes are read where the value fits in its field; otherwise the
/// value's bytes at the offset that the field holds as well.
pub fn read_tag(data: &[u8], tag_offset: u64, endianness: Endianness, bigtiff: bool) -> (r: AsyncTiffResult<(Tag, Value)>)
    ensures
        match r {
            Ok((tag, v)) => entry_at(data@, tag_offset as int, endianness, bigtiff) == Ok::<(Tag, ValueView), AsyncTiffError>((tag, v@)),
            Err(err) => entry_at(data@, tag_offset as int, endianness, bigtiff) == Err::<(Tag, ValueView), AsyncTiffError>(err),
        },
{
    let len = data.len() as u64;
    let esize: u64 = if bigtiff { 20 } else { 12 };
    if tag_offset > len || esize > len - tag_offset {
        return Err(AsyncTiffError::EndOfFile(tag_offset, esize));
    }
    let off = tag_offset as usize;
    let code = read_u16(data, off, endianness);
    let type_code = read_u16(data, off + 2, endianness);
    let tag_type = match Type::from_u16(type_code) {
        Some(t) => t,
        None => {
            return Err(AsyncTiffError::InternalTIFFError(TiffError::FormatError(TiffFormatError::UnknownTagType(type_code))));
        },
    };
    let count = if bigtiff {
        read_u64(data, off + 4, endianness)
    } else {
        read_u32(data, off + 4, endianness) as u64
    };
    let field: u64 = if bigtiff { tag_offset + 12 } else { tag_offset + 8 };
    let value = read_tag_value(data, field, tag_type, count, endianness, bigtiff)?;
    Ok((Tag::from_u16_exhaustive(code), value))
}

/// The two bytes of `x` in byte order `e`.
pub open spec fn put_u16(x: u16, e: Endianness) -> Seq<u8> {
    match e {
        Endianness::LittleEndian => seq![(x % 256) as u8, (x / 256) as u8],
        Endianness::BigEndian => seq![(x / 256) as u8, (x % 256) as u8],
    }
}

/// The four bytes of `x` in byte order `e`.
pub open spec fn put_u32(x: u32, e: Endianness) -> Seq<u8> {
    match e {
        Endianness::LittleEndian => put_u16((x % 0x1_0000) as u16, e) + put_u16((x / 0x1_0000) as u16, e),
        Endianness::BigEndian => put_u16((x / 0x1_0000) as u16, e) + put_u16((x % 0x1_0000) as u16, e),
    }
}

/// The eight bytes of `x` in byte order `e`.
pub open spec fn put_u64(x: u64, e: Endianness) -> Seq<u8> {
    match e {
        Endianness::LittleEndian => put_u32((x % 0x1_0000_0000) as u32, e) + put_u32((x / 0x1_0000_0000) as u32, e),
        Endianness::BigEndian => put_u32((x / 0x1_0000_0000) as u32, e) + put_u32((x % 0x1_0000_0000) as u32, e),
    }
}

/// An IFD entry of tag `tag`, type code `type_code` and count `count`, with `field` as its
/// value-or-offset field, written in byte order `e` for a classic TIFF or a BigTIFF.
pub open spec fn entry_bytes(tag: u16, type_code: u16, count: u32, field: Seq<u8>, e: Endianness, bigtiff: bool) -> Seq<u8> {
    put_u16(tag, e) + put_u16(type_code, e) + if bigtiff { put_u64(count as u64, e) } else { put_u32(count, e) } + field
}

/// The value-or-offset field of an entry that holds `v` in its first bytes, zero-padded.
pub open spec fn padded_field(v: Seq<u8>, bigtiff: bool) -> Seq<u8> {
    v + Seq::new((field_size(bigtiff) - v.len()) as nat, |i: int| 0u8)
}

proof fn lemma_put_u16(x: u16, e: Endianness, s: Seq<u8>, i: int)
    requires
        0 <= i,
        i + 2 <= s.len(),
        s.subrange(i, i + 2) == put_u16(x, e),
    ensures
        u16_at(s, i, e) == x,
{
    assert(s[i] == put_u16(x, e)[0] && s[i + 1] == put_u16(x, e)[1]);
}

proof fn lemma_put_u32(x: u32, e: Endianness, s: Seq<u8>, i: int)
    requires
        0 <= i,
        i + 4 <= s.len(),
        s.subrange(i, i + 4) == put_u32(x, e),
    ensures
        u32_at(s, i, e) == x,
{
    let lo = (x % 0x1_0000) as u16;
    let hi = (x / 0x1_0000) as u16;
    match e {
        Endianness::LittleEndian => {
            assert(s.subrange(i, i + 2) =~= put_u32(x, e).subrange(0, 2));
            assert(s.subrange(i + 2, i + 4) =~= put_u32(x, e).subrange(2, 4));
            assert(put_u32(x, e).subrange(0, 2) =~= put_u16(lo, e));
            assert(put_u32(x, e).subrange(2, 4) =~= put_u16(hi, e));
            lemma_put_u16(lo, e, s, i);
            lemma_put_u16(hi, e, s, i + 2);
        },
        Endianness::BigEndian => {
            assert(s.subrange(i, i + 2) =~= put_u32(x, e).subrange(0, 2));
            assert(s.subrange(i + 2, i + 4) =~= put_u32(x, e).subrange(2, 4));
            assert(put_u32(x, e).subrange(0, 2) =~= put_u16(hi, e));
            assert(put_u32(x, e).subrange(2, 4) =~= put_u16(lo, e));
            lemma_put_u16(hi, e, s, i);
            lemma_put_u16(lo, e, s, i + 2);
        },
    }
}

proof fn lemma_put_u64(x: u64, e: Endianness, s: Seq<u8>, i: int)
    requires
        0 <= i,
        i + 8 <= s.len(),
        s.subrange(i, i + 8) == put_u64(x, e),
    ensures
        u64_at(s, i, e) == x,
{
    let lo = (x % 0x1_0000_0000) as u32;
    let hi = (x / 0x1_0000_0000) as u32;
    match e {
        Endianness::LittleEndian => {
            assert(s.subrange(i, i + 4) =~= put_u64(x, e).subrange(0, 4));
            assert(s.subrange(i + 4, i + 8) =~= put_u64(x, e).subrange(4, 8));
            assert(put_u64(x, e).subrange(0, 4) =~= put_u32(lo, e));
            assert(put_u64(x, e).subrange(4, 8) =~= put_u32(hi, e));
            lemma_put_u32(lo, e, s, i);
            lemma_put_u32(hi, e, s, i + 4);
        },
        Endianness::BigEndian => {
            assert(s.subrange(i, i + 4) =~= put_u64(x, e).subrange(0, 4));
            assert(s.subrange(i + 4, i + 8) =~= put_u64(x, e).subrange(4, 8));
            assert(put_u64(x, e).subrange(0, 4) =~= put_u32(hi, e));
            assert(put_u64(x, e).subrange(4, 8) =~= put_u32(lo, e));
            lemma_put_u32(hi, e, s, i);
            lemma_put_u32(lo, e, s, i + 4);
        },
    }
}

/// The header of an entry written by [`entry_bytes`] reads back.
proof fn lemma_entry_header(tag: u16, type_code: u16, field: Seq<u8>, e: Endianness, bigtiff: bool)
    requires
        field.len() == field_size(bigtiff),
    ensures
        ({
            let s = entry_bytes(tag, type_code, 1, field, e, bigtiff);
            &&& s.len() == entry_size(bigtiff)
            &&& u16_at(s, 0, e) == tag
            &&& u16_at(s, 2, e) == type_code
            &&& count_at(s, 0, e, bigtiff) == 1
            &&& s.subrange(field_start(bigtiff), entry_size(bigtiff)) == field
        }),
{
    let s = entry_bytes(tag, type_code, 1, field, e, bigtiff);
    assert(s.subrange(0, 2) =~= put_u16(tag, e));
    assert(s.subrange(2, 4) =~= put_u16(type_code, e));
    lemma_put_u16(tag, e, s, 0);
    lemma_put_u16(type_code, e, s, 2);
    if bigtiff {
        assert(s.subrange(4, 12) =~= put_u64(1u64, e));
        lemma_put_u64(1u64, e, s, 4);
    } else {
        assert(s.subrange(4, 8) =~= put_u32(1u32, e));
        lemma_put_u32(1u32, e, s, 4);
    }
    assert(s.subrange(field_start(bigtiff), entry_size(bigtiff)) =~= field);
}

/// Writing a one-element SHORT entry in either byte order, classic or BigTIFF, and decoding
/// it gives back its tag and its value.
pub proof fn lemma_short_entry_round_trip(tag: u16, x: u16, e: Endianness, bigtiff: bool)
    ensures
        entry_at(entry_bytes(tag, 3, 1, padded_field(put_u16(x, e), bigtiff), e, bigtiff), 0, e, bigtiff)
            == Ok::<(Tag, ValueView), AsyncTiffError>((Tag::spec_from_u16(tag), ValueView::Short(x))),
{
    let field = padded_field(put_u16(x, e), bigtiff);
    let s = entry_bytes(tag, 3, 1, field, e, bigtiff);
    lemma_entry_header(tag, 3, field, e, bigtiff);
    let f = field_start(bigtiff);
    assert(s.subrange(f, f + 2) =~= put_u16(x, e)) by {
        assert(s.subrange(f, f + 2) =~= s.subrange(f, entry_size(bigtiff)).subrange(0, 2));
        assert(field.subrange(0, 2) =~= put_u16(x, e));
    }
    lemma_put_u16(x, e, s, f);
    reveal(element_at);
    assert(element_at(Type::SHORT, s, f, e) == ValueView::Short(x));
}

/// Writing a one-element LONG entry in either byte order, classic or BigTIFF, and decoding it
/// gives back its tag and its value.
pub proof fn lemma_long_entry_round_trip(tag: u16, x: u32, e: Endianness, bigtiff: bool)
    ensures
        entry_at(entry_bytes(tag, 4, 1, padded_field(put_u32(x, e), bigtiff), e, bigtiff), 0, e, bigtiff)
            == Ok::<(Tag, ValueView), AsyncTiffError>((Tag::spec_from_u16(tag), ValueView::Unsigned(x))),
{
    let field = padded_field(put_u32(x, e), bigtiff);
    let s = entry_bytes(tag, 4, 1, field, e, bigtiff);
    lemma_entry_header(tag, 4, field, e, bigtiff);
    let f = field_start(bigtiff);
    assert(s.subrange(f, f + 4) =~= put_u32(x, e)) by {
        assert(s.subrange(f, f + 4) =~= s.subrange(f, entry_size(bigtiff)).subrange(0, 4));
        assert(field.subrange(0, 4) =~= put_u32(x, e));
    }
    lemma_put_u32(x, e, s, f);
    reveal(element_at);
    assert(element_at(Type::LONG, s, f, e) == ValueView::Unsigned(x));
}

/// The same one-element SHORT or LONG entry, written for a classic TIFF and for a BigTIFF,
/// decodes to the same tag and value.
pub proof fn lemma_classic_bigtiff_agree(tag: u16, short: u16, long: u32, e: Endianness)
    ensures
        entry_at(entry_bytes(tag, 3, 1, padded_field(put_u16(short, e), false), e, false), 0, e, false)
            == entry_at(entry_bytes(tag, 3, 1, padded_field(put_u16(short, e), true), e, true), 0, e, true),
        entry_at(entry_bytes(tag, 4, 1, padded_field(put_u32(long, e), false), e, false), 0, e, false)
            == entry_at(entry_bytes(tag, 4, 1, padded_field(put_u32(long, e), true), e, true), 0, e, true),
{
    lemma_short_entry_round_trip(tag, short, e, false);
    lemma_short_entry_round_trip(tag, short, e, true);
    lemma_long_entry_round_trip(tag, long, e, false);
    lemma_long_entry_round_trip(tag, long, e, true);
}

proof fn lemma_element_local(t: Type, s1: Seq<u8>, s2: Seq<u8>, i: int, e: Endianness)
    requires
        0 <= i,
        i + t.spec_size() <= s1.len(),
        i + t.spec_size() <= s2.len(),
        forall|j: int| i <= j < i + t.spec_size() ==> s1[j] == s2[j],
    ensures
        element_at(t, s1, i, e) == element_at(t, s2, i, e),
{
    reveal(element_at);
    if t.spec_size() >= 2 {
        assert(s1[i + 1] == s2[i + 1]);
    }
    if t.spec_size() >= 4 {
        assert(s1[i + 2] == s2[i + 2] && s1[i + 3] == s2[i + 3]);
    }
    if t.spec_size() == 8 {
        assert(s1[i + 4] == s2[i + 4] && s1[i + 5] == s2[i + 5] && s1[i + 6] == s2[i + 6] && s1[i + 7] == s2[i + 7]);
    }
    assert(s1[i] == s2[i]);
}

proof fn lemma_nul_from_local(s1: Seq<u8>, s2: Seq<u8>, i: int, end: int)
    requires
        0 <= i,
        end <= s1.len(),
        end <= s2.len(),
        forall|j: int| i <= j < end ==> s1[j] == s2[j],
    ensures
        nul_from(s1, i, end) == nul_from(s2, i, end),
    decreases end - i,
{
    if i < end {
        lemma_nul_from_local(s1, s2, i + 1, end);
    }
}

/// Where the value of an entry fits in its value-or-offset field, decoding the entry reads
/// the entry's own bytes and no others: two buffers that agree on those bytes decode it alike.
pub proof fn lemma_in_field_value_is_local(s1: Seq<u8>, s2: Seq<u8>, off: int, e: Endianness, bigtiff: bool)
    requires
        0 <= off,
        off + entry_size(bigtiff) <= s1.len(),
        off + entry_size(bigtiff) <= s2.len(),
        s1.subrange(off, off + entry_size(bigtiff)) == s2.subrange(off, off + entry_size(bigtiff)),
        Type::spec_from_u16(u16_at(s1, off + 2, e) as u16) matches Some(t) && count_at(s1, off, e, bigtiff)
            * t.spec_size() <= field_size(bigtiff),
    ensures
        entry_at(s1, off, e, bigtiff) == entry_at(s2, off, e, bigtiff),
{
    let es = entry_size(bigtiff);
    assert forall|j: int| off <= j < off + es implies s1[j] == s2[j] by {
        assert(s1.subrange(off, off + es)[j - off] == s2.subrange(off, off + es)[j - off]);
    }
    let t = Type::spec_from_u16(u16_at(s1, off + 2, e) as u16)->0;
    let count = count_at(s1, off, e, bigtiff);
    let f = off + field_start(bigtiff);
    let size = t.spec_size() as int;
    lemma_u32_at_bound(s1, off + 4, e);
    if bigtiff {
        lemma_u64_at_bound(s1, off + 4, e);
    }
    assert(count >= 0);
    if count > 0 {
        let n = count * size;
        assert(f + n <= off + es);
        if t == Type::ASCII {
            lemma_nul_from_local(s1, s2, f, f + count);
            lemma_nul_from_bounds(s1, f, f + count);
            let k = nul_from(s1, f, f + count);
            assert(s1.subrange(f, k) =~= s2.subrange(f, k));
            assert(all_ascii(s1, f, k) == all_ascii(s2, f, k));
        } else if count == 1 {
            lemma_element_local(t, s1, s2, f, e);
        } else {
            assert forall|k: int| 0 <= k < count implies #[trigger] element_at(t, s1, f + k * size, e) == element_at(t, s2, f + k * size, e) by {
                assert(k * size + size <= count * size) by (nonlinear_arith)
                    requires 0 <= k < count, size >= 1;
                assert(0 <= k * size) by (nonlinear_arith)
                    requires 0 <= k, size >= 1;
                lemma_element_local(t, s1, s2, f + k * size, e);
            }
            assert(Seq::new(count as nat, |k: int| element_at(t, s1, f + k * size, e)) =~= Seq::new(
                count as nat,
                |k: int| element_at(t, s2, f + k * size, e),
            ));
        }
    }
}

} // verus!
