//! Byte order and endian-aware integer reads out of a byte buffer.
use vstd::prelude::*;

verus! {

/// Byte order of the multi-byte values of a TIFF file.
#[derive(Debug, Clone, Copy, PartialEq, Eq, Structural)]
pub enum Endianness {
    /// Least significant byte first (`II`).
    LittleEndian,
    /// Most significant byte first (`MM`).
    BigEndian,
}

/// The 16-bit unsigned integer stored at `s[i..i + 2]` in byte order `e`.
pub open spec fn u16_at(s: Seq<u8>, i: int, e: Endianness) -> int {
    match e {
        Endianness::LittleEndian => s[i] + 256 * s[i + 1],
        Endianness::BigEndian => 256 * s[i] + s[i + 1],
    }
}

/// The 32-bit unsigned integer stored at `s[i..i + 4]` in byte order `e`.
pub open spec fn u32_at(s: Seq<u8>, i: int, e: Endianness) -> int {
    match e {
        Endianness::LittleEndian => u16_at(s, i, e) + 0x1_0000 * u16_at(s, i + 2, e),
        Endianness::BigEndian => 0x1_0000 * u16_at(s, i, e) + u16_at(s, i + 2, e),
    }
}

/// The 64-bit unsigned integer stored at `s[i..i + 8]` in byte order `e`.
pub open spec fn u64_at(s: Seq<u8>, i: int, e: Endianness) -> int {
    match e {
        Endianness::LittleEndian => u32_at(s, i, e) + 0x1_0000_0000 * u32_at(s, i + 4, e),
        Endianness::BigEndian => 0x1_0000_0000 * u32_at(s, i, e) + u32_at(s, i + 4, e),
    }
}

pub proof fn lemma_u16_at_bound(s: Seq<u8>, i: int, e: Endianness)
    requires
        0 <= i,
        i + 2 <= s.len(),
    ensures
        0 <= u16_at(s, i, e) < 0x1_0000,
{
}

pub proof fn lemma_u32_at_bound(s: Seq<u8>, i: int, e: Endianness)
    requires
        0 <= i,
        i + 4 <= s.len(),
    ensures
        0 <= u32_at(s, i, e) < 0x1_0000_0000,
{
    lemma_u16_at_bound(s, i, e);
    lemma_u16_at_bound(s, i + 2, e);
}

pub proof fn lemma_u64_at_bound(s: Seq<u8>, i: int, e: Endianness)
    requires
        0 <= i,
        i + 8 <= s.len(),
    ensures
        0 <= u64_at(s, i, e) < 0x1_0000_0000_0000_0000,
{
    lemma_u32_at_bound(s, i, e);
    lemma_u32_at_bound(s, i + 4, e);
}

/// Reads the 16-bit unsigned integer at `s[i..i + 2]`.
pub fn read_u16(s: &[u8], i: usize, e: Endianness) -> (r: u16)
    requires
        i + 2 <= s@.len(),
    ensures
        r as int == u16_at(s@, i as int, e),
{
    let a = s[i] as u16;
    let b = s[i + 1] as u16;
    match e {
        Endianness::LittleEndian => a + 256 * b,
        Endianness::BigEndian => 256 * a + b,
    }
}

/// Reads the 32-bit unsigned integer at `s[i..i + 4]`.
pub fn read_u32(s: &[u8], i: usize, e: Endianness) -> (r: u32)
    requires
        i + 4 <= s@.len(),
    ensures
        r as int == u32_at(s@, i as int, e),
{
    let _len = s.len();
    let a = read_u16(s, i, e) as u32;
    let b = read_u16(s, i + 2, e) as u32;
    match e {
        Endianness::LittleEndian => a + 0x1_0000 * b,
        Endianness::BigEndian => 0x1_0000 * a + b,
    }
}

/// Reads the 64-bit unsigned integer at `s[i..i + 8]`.
pub fn read_u64(s: &[u8], i: usize, e: Endianness) -> (r: u64)
    requires
        i + 8 <= s@.len(),
    ensures
        r as int == u64_at(s@, i as int, e),
{
    let _len = s.len();
    let a = read_u32(s, i, e) as u64;
    let b = read_u32(s, i + 4, e) as u64;
    match e {
        Endianness::LittleEndian => a + 0x1_0000_0000 * b,
        Endianness::BigEndian => 0x1_0000_0000 * a + b,
    }
}

/// Writes `v` at `s[i..i + 2]` in byte order `e`.
pub fn write_u16(s: &mut [u8], i: usize, v: u16, e: Endianness)
    requires
        i + 2 <= old(s)@.len(),
    ensures
        final(s)@.len() == old(s)@.len(),
        u16_at(final(s)@, i as int, e) == v,
        forall|p: int| 0 <= p < old(s)@.len() && (p < i || p >= i + 2) ==> final(s)@[p] == old(s)@[p],
{
    let lo = (v % 256) as u8;
    let hi = (v / 256) as u8;
    match e {
        Endianness::LittleEndian => {
            s[i] = lo;
            s[i + 1] = hi;
        },
        Endianness::BigEndian => {
            s[i] = hi;
            s[i + 1] = lo;
        },
    }
}

/// Writes `v` at `s[i..i + 4]` in byte order `e`.
pub fn write_u32(s: &mut [u8], i: usize, v: u32, e: Endianness)
    requires
        i + 4 <= old(s)@.len(),
    ensures
        final(s)@.len() == old(s)@.len(),
        u32_at(final(s)@, i as int, e) == v,
        forall|p: int| 0 <= p < old(s)@.len() && (p < i || p >= i + 4) ==> final(s)@[p] == old(s)@[p],
{
    let _len = s.len();
    let lo = (v % 0x1_0000) as u16;
    let hi = (v / 0x1_0000) as u16;
    match e {
        Endianness::LittleEndian => {
            write_u16(s, i, lo, e);
            write_u16(s, i + 2, hi, e);
        },
        Endianness::BigEndian => {
            write_u16(s, i, hi, e);
            write_u16(s, i + 2, lo, e);
        },
    }
}

/// Writes `v` at `s[i..i + 8]` in byte order `e`.
pub fn write_u64(s: &mut [u8], i: usize, v: u64, e: Endianness)
    requires
        i + 8 <= old(s)@.len(),
    ensures
        final(s)@.len() == old(s)@.len(),
        u64_at(final(s)@, i as int, e) == v,
        forall|p: int| 0 <= p < old(s)@.len() && (p < i || p >= i + 8) ==> final(s)@[p] == old(s)@[p],
{
    let _len = s.len();
    let lo = (v % 0x1_0000_0000) as u32;
    let hi = (v / 0x1_0000_0000) as u32;
    match e {
        Endianness::LittleEndian => {
            write_u32(s, i, lo, e);
            write_u32(s, i + 4, hi, e);
        },
        Endianness::BigEndian => {
            write_u32(s, i, hi, e);
            write_u32(s, i + 4, lo, e);
        },
    }
}

/// Copies a slice of bytes.
pub(crate) fn slice_to_vec(b: &[u8]) -> (r: Vec<u8>)
    ensures
        r@ == b@,
{
    let mut r: Vec<u8> = Vec::new();
    let mut i: usize = 0;
    while i < b.len()
        invariant
            i <= b@.len(),
            r@ == b@.subrange(0, i as int),
        decreases b@.len() - i,
    {
        r.push(b[i]);
        i += 1;
        proof {
            assert(r@ =~= b@.subrange(0, i as int));
        }
    }
    proof {
        assert(b@.subrange(0, i as int) =~= b@);
    }
    r
}

} // verus!
