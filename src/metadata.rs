//! Walking the IFD chain of a TIFF file: the header, then one IFD after another.
use vstd::prelude::*;
use vstd::set_lib::{lemma_int_range, lemma_len_subset, set_int_range};

use crate::endian::{read_u16, read_u32, read_u64, u16_at, u32_at, u64_at, Endianness};
use crate::entry::{entry_at, entry_size, read_tag};
use crate::error::{format_err, AsyncTiffError, AsyncTiffResult, TiffError, TiffFormatError};
use crate::ifd::{built_from, ImageFileDirectory};
use crate::tags::Tag;
use crate::value::{Value, ValueView};

verus! {

/// The byte order, the BigTIFF flag and the first IFD offset that the header of the file
/// `s` gives.
pub open spec fn header_spec(s: Seq<u8>) -> Result<(Endianness, bool, u64), AsyncTiffError> {
    if s.len() < 2 {
        Err(AsyncTiffError::EndOfFile(0, 2))
    } else if !(s[0] == 0x49 && s[1] == 0x49) && !(s[0] == 0x4D && s[1] == 0x4D) {
        Err(format_err(TiffFormatError::TiffSignatureInvalid))
    } else {
        let e = if s[0] == 0x49 { Endianness::LittleEndian } else { Endianness::BigEndian };
        if s.len() < 4 {
            Err(AsyncTiffError::EndOfFile(2, 2))
        } else if u16_at(s, 2, e) == 42 {
            if s.len() < 8 {
                Err(AsyncTiffError::EndOfFile(4, 4))
            } else {
                Ok((e, false, u32_at(s, 4, e) as u64))
            }
        } else if u16_at(s, 2, e) == 43 {
            if s.len() < 6 {
                Err(AsyncTiffError::EndOfFile(4, 2))
            } else if u16_at(s, 4, e) != 8 {
                Err(format_err(TiffFormatError::TiffSignatureNotFound))
            } else if s.len() < 8 {
                Err(AsyncTiffError::EndOfFile(6, 2))
            } else if u16_at(s, 6, e) != 0 {
                Err(format_err(TiffFormatError::TiffSignatureNotFound))
            } else if s.len() < 16 {
                Err(AsyncTiffError::EndOfFile(8, 8))
            } else {
                Ok((e, true, u64_at(s, 8, e) as u64))
            }
        } else {
            Err(format_err(TiffFormatError::TiffSignatureInvalid))
        }
    }
}

/// Bytes taken by the tag count at the start of an IFD.
pub open spec fn tag_count_size(bigtiff: bool) -> int {
    if bigtiff { 8 } else { 2 }
}

/// Bytes taken by the next-IFD offset at the end of an IFD.
pub open spec fn next_offset_size(bigtiff: bool) -> int {
    if bigtiff { 8 } else { 4 }
}

/// The tag count of the IFD at `s[o..]`.
pub open spec fn tag_count_at(s: Seq<u8>, o: int, e: Endianness, bigtiff: bool) -> int {
    if bigtiff { u64_at(s, o, e) } else { u16_at(s, o, e) }
}

/// Bytes taken by an IFD of `count` entries: tag count, entries, next-IFD offset.
pub open spec fn ifd_span(count: int, bigtiff: bool) -> int {
    tag_count_size(bigtiff) + entry_size(bigtiff) * count + next_offset_size(bigtiff)
}

/// The error of an IFD at `o` whose bytes run past the end of `s`.
pub open spec fn ifd_span_error(o: u64, count: int, bigtiff: bool) -> AsyncTiffError {
    AsyncTiffError::EndOfFile(o, if ifd_span(count, bigtiff) > u64::MAX { u64::MAX } else { ifd_span(count, bigtiff) as u64 })
}

/// The next-IFD offset stored after the entries of the IFD at `o` with `count` entries;
/// 0 stands for none.
pub open spec fn next_ifd_at(s: Seq<u8>, o: int, count: int, e: Endianness, bigtiff: bool) -> Option<u64> {
    let p = o + tag_count_size(bigtiff) + entry_size(bigtiff) * count;
    let v = if bigtiff { u64_at(s, p, e) } else { u32_at(s, p, e) };
    if v == 0 { None } else { Some(v as u64) }
}

/// Reads the header of the file whose bytes are `data`, from its start: the magic bytes,
/// the version, the BigTIFF header where there is one, and the first IFD offset.
pub fn read_header(data: &[u8]) -> (r: AsyncTiffResult<(Endianness, bool, u64)>)
    ensures
        r == header_spec(data@),
{
    let len = data.len();
    if len < 2 {
        return Err(AsyncTiffError::EndOfFile(0, 2));
    }
    let e = if data[0] == 0x49 && data[1] == 0x49 {
        Endianness::LittleEndian
    } else if data[0] == 0x4D && data[1] == 0x4D {
        Endianness::BigEndian
    } else {
        return Err(AsyncTiffError::InternalTIFFError(TiffError::FormatError(TiffFormatError::TiffSignatureInvalid)));
    };
    if len < 4 {
        return Err(AsyncTiffError::EndOfFile(2, 2));
    }
    let version = read_u16(data, 2, e);
    if version == 42 {
        if len < 8 {
            return Err(AsyncTiffError::EndOfFile(4, 4));
        }
        Ok((e, false, read_u32(data, 4, e) as u64))
    } else if version == 43 {
        if len < 6 {
            return Err(AsyncTiffError::EndOfFile(4, 2));
        }
        if read_u16(data, 4, e) != 8 {
            return Err(AsyncTiffError::InternalTIFFError(TiffError::FormatError(TiffFormatError::TiffSignatureNotFound)));
        }
        if len < 8 {
            return Err(AsyncTiffError::EndOfFile(6, 2));
        }
        if read_u16(data, 6, e) != 0 {
            return Err(AsyncTiffError::InternalTIFFError(TiffError::FormatError(TiffFormatError::TiffSignatureNotFound)));
        }
        if len < 16 {
            return Err(AsyncTiffError::EndOfFile(8, 8));
        }
        Ok((e, true, read_u64(data, 8, e)))
    } else {
        Err(AsyncTiffError::InternalTIFFError(TiffError::FormatError(TiffFormatError::TiffSignatureInvalid)))
    }
}

/// Reads the entries of one IFD.
///
/// Opening it checks that the whole IFD, from its tag count to its next-IFD offset, stands
/// within the bytes at hand.
#[derive(Debug)]
pub struct ImageFileDirectoryReader {
    pub endianness: Endianness,
    pub bigtiff: bool,
    /// The offset of the start of this IFD.
    pub ifd_start_offset: u64,
    /// The number of entries of this IFD.
    pub tag_count: u64,
    /// Bytes taken by each entry: 12, or 20 in a BigTIFF.
    pub ifd_entry_byte_size: u64,
    /// Bytes taken by the tag count: 2, or 8 in a BigTIFF.
    pub tag_count_byte_size: u64,
}

/// The result of reading the first `n` entries of the IFD at `o` with byte order `e`: the
/// first error, or every entry.
pub open spec fn entries_read(s: Seq<u8>, o: int, e: Endianness, bigtiff: bool, n: int) -> Result<Seq<(Tag, ValueView)>, AsyncTiffError>
    decreases n,
{
    if n <= 0 {
        Ok(Seq::empty())
    } else {
        match entries_read(s, o, e, bigtiff, n - 1) {
            Err(err) => Err(err),
            Ok(prev) => match entry_at(s, o + tag_count_size(bigtiff) + entry_size(bigtiff) * (n - 1), e, bigtiff) {
                Err(err) => Err(err),
                Ok(x) => Ok(prev.push(x)),
            },
        }
    }
}

impl ImageFileDirectoryReader {
    /// The reader was opened on the bytes `s`.
    pub open spec fn opened_on(&self, s: Seq<u8>) -> bool {
        &&& self.ifd_entry_byte_size == entry_size(self.bigtiff)
        &&& self.tag_count_byte_size == tag_count_size(self.bigtiff)
        &&& self.tag_count == tag_count_at(s, self.ifd_start_offset as int, self.endianness, self.bigtiff)
        &&& self.ifd_start_offset + ifd_span(self.tag_count as int, self.bigtiff) <= s.len()
    }

    /// The offset of entry `i`.
    pub open spec fn entry_offset(&self, i: int) -> int {
        self.ifd_start_offset + self.tag_count_byte_size + self.ifd_entry_byte_size * i
    }

    /// Opens the IFD at `data[ifd_start_offset..]`.
    pub fn open(data: &[u8], ifd_start_offset: u64, bigtiff: bool, endianness: Endianness) -> (r: AsyncTiffResult<ImageFileDirectoryReader>)
        ensures
            match r {
                Ok(rd) => rd.opened_on(data@) && rd.ifd_start_offset == ifd_start_offset && rd.bigtiff == bigtiff
                    && rd.endianness == endianness,
                Err(err) => if ifd_start_offset + tag_count_size(bigtiff) > data@.len() {
                    err == AsyncTiffError::EndOfFile(ifd_start_offset, tag_count_size(bigtiff) as u64)
                } else {
                    err == ifd_span_error(
                        ifd_start_offset,
                        tag_count_at(data@, ifd_start_offset as int, endianness, bigtiff),
                        bigtiff,
                    ) && ifd_start_offset + ifd_span(tag_count_at(data@, ifd_start_offset as int, endianness, bigtiff), bigtiff) > data@.len()
                },
            },
    {
        let len = data.len() as u64;
        let tcs: u64 = if bigtiff { 8 } else { 2 };
        let esize: u64 = if bigtiff { 20 } else { 12 };
        let nsize: u64 = if bigtiff { 8 } else { 4 };
        if ifd_start_offset > len || tcs > len - ifd_start_offset {
            return Err(AsyncTiffError::EndOfFile(ifd_start_offset, tcs));
        }
        let o = ifd_start_offset as usize;
        let tag_count = if bigtiff {
            read_u64(data, o, endianness)
        } else {
            read_u16(data, o, endianness) as u64
        };
        let span = match tag_count.checked_mul(esize) {
            Some(m) => match m.checked_add(tcs + nsize) {
                Some(x) => x,
                None => u64::MAX,
            },
            None => u64::MAX,
        };
        if span > len - ifd_start_offset || span == u64::MAX {
            return Err(AsyncTiffError::EndOfFile(ifd_start_offset, span));
        }
        Ok(ImageFileDirectoryReader {
            endianness,
            bigtiff,
            ifd_start_offset,
            tag_count,
            ifd_entry_byte_size: esize,
            tag_count_byte_size: tcs,
        })
    }

    /// Reads entry `tag_idx`: its tag and value.
    pub fn read_tag(&self, data: &[u8], tag_idx: u64) -> (r: AsyncTiffResult<(Tag, Value)>)
        requires
            self.opened_on(data@),
            tag_idx < self.tag_count,
        ensures
            match r {
                Ok((tag, v)) => entry_at(data@, self.entry_offset(tag_idx as int), self.endianness, self.bigtiff) == Ok::<(Tag, ValueView), AsyncTiffError>((tag, v@)),
                Err(err) => entry_at(data@, self.entry_offset(tag_idx as int), self.endianness, self.bigtiff) == Err::<(Tag, ValueView), AsyncTiffError>(err),
            },
    {
        let _len = data.len();
        proof {
            assert(self.ifd_entry_byte_size * tag_idx <= self.ifd_entry_byte_size * self.tag_count) by (nonlinear_arith)
                requires tag_idx < self.tag_count;
        }
        let off = self.ifd_start_offset + self.tag_count_byte_size + self.ifd_entry_byte_size * tag_idx;
        read_tag(data, off, self.endianness, self.bigtiff)
    }

    /// Reads the offset of the next IFD; `None` where it is 0.
    pub fn finish(&self, data: &[u8]) -> (r: Option<u64>)
        requires
            self.opened_on(data@),
        ensures
            r == next_ifd_at(data@, self.ifd_start_offset as int, self.tag_count as int, self.endianness, self.bigtiff),
    {
        let _len = data.len();
        let p = (self.ifd_start_offset + self.tag_count_byte_size + self.ifd_entry_byte_size * self.tag_count) as usize;
        let v = if self.bigtiff {
            read_u64(data, p, self.endianness)
        } else {
            read_u32(data, p, self.endianness) as u64
        };
        if v == 0 {
            None
        } else {
            Some(v)
        }
    }

    /// Reads every entry of this IFD and builds its record.
    pub fn read(&self, data: &[u8]) -> (r: AsyncTiffResult<ImageFileDirectory>)
        requires
            self.opened_on(data@),
        ensures
            match entries_read(data@, self.ifd_start_offset as int, self.endianness, self.bigtiff, self.tag_count as int) {
                Err(err) => r == Err::<ImageFileDirectory, AsyncTiffError>(err),
                Ok(s) => built_from(
                    r,
                    s,
                    self.endianness,
                    next_ifd_at(data@, self.ifd_start_offset as int, self.tag_count as int, self.endianness, self.bigtiff),
                ),
            },
    {
        let mut tags: Vec<(Tag, Value)> = Vec::new();
        let mut i: u64 = 0;
        proof {
            assert(tags@.map_values(|p: (Tag, Value)| (p.0, p.1@)) =~= Seq::<(Tag, ValueView)>::empty());
        }
        while i < self.tag_count
            invariant
                self.opened_on(data@),
                i <= self.tag_count,
                entries_read(data@, self.ifd_start_offset as int, self.endianness, self.bigtiff, i as int)
                    == Ok::<Seq<(Tag, ValueView)>, AsyncTiffError>(tags@.map_values(|p: (Tag, Value)| (p.0, p.1@))),
            decreases self.tag_count - i,
        {
            match self.read_tag(data, i) {
                Ok(x) => {
                    let ghost prev = tags@.map_values(|p: (Tag, Value)| (p.0, p.1@));
                    let ghost xv = (x.0, x.1@);
                    tags.push(x);
                    proof {
                        assert(tags@.map_values(|p: (Tag, Value)| (p.0, p.1@)) =~= prev.push(xv));
                    }
                },
                Err(err) => {
                    proof {
                        lemma_entries_read_err_stays(data@, self.ifd_start_offset as int, self.endianness, self.bigtiff, i as int + 1, self.tag_count as int);
                    }
                    return Err(err);
                },
            }
            i += 1;
        }
        let next = self.finish(data);
        ImageFileDirectory::from_tags(tags, self.endianness, next)
    }
}

/// What reading the IFD at `o` gives: the first error of opening it or of reading its
/// entries, else what [`ImageFileDirectory::from_tags`] builds of its entries.
pub open spec fn ifd_read_at(s: Seq<u8>, o: u64, e: Endianness, bigtiff: bool, r: AsyncTiffResult<ImageFileDirectory>) -> bool {
    if o + tag_count_size(bigtiff) > s.len() {
        r == Err::<ImageFileDirectory, AsyncTiffError>(AsyncTiffError::EndOfFile(o, tag_count_size(bigtiff) as u64))
    } else if o + ifd_span(tag_count_at(s, o as int, e, bigtiff), bigtiff) > s.len() {
        r == Err::<ImageFileDirectory, AsyncTiffError>(ifd_span_error(o, tag_count_at(s, o as int, e, bigtiff), bigtiff))
    } else {
        match entries_read(s, o as int, e, bigtiff, tag_count_at(s, o as int, e, bigtiff)) {
            Err(err) => r == Err::<ImageFileDirectory, AsyncTiffError>(err),
            Ok(es) => built_from(r, es, e, next_ifd_at(s, o as int, tag_count_at(s, o as int, e, bigtiff), e, bigtiff)),
        }
    }
}

/// Reads the IFD at `data[o..]`.
pub fn read_ifd_at(data: &[u8], o: u64, endianness: Endianness, bigtiff: bool) -> (r: AsyncTiffResult<ImageFileDirectory>)
    ensures
        ifd_read_at(data@, o, endianness, bigtiff, r),
        r is Ok ==> o < data@.len(),
{
    match ImageFileDirectoryReader::open(data, o, bigtiff, endianness) {
        Ok(rd) => rd.read(data),
        Err(err) => Err(err),
    }
}

/// Entry point of metadata reading: the header of a file, then its IFDs one after another.
///
/// The walk stops at a next-IFD offset of 0, and at an offset that it has already read, so
/// a chain that loops ends.
#[derive(Debug)]
pub struct TiffMetadataReader {
    endianness: Endianness,
    bigtiff: bool,
    next_ifd_offset: Option<u64>,
    visited: Vec<u64>,
}

/// Whether `v` holds `o`.
fn contains_offset(v: &Vec<u64>, o: u64) -> (r: bool)
    ensures
        r == v@.contains(o),
{
    let mut i: usize = 0;
    while i < v.len()
        invariant
            i <= v@.len(),
            forall|j: int| 0 <= j < i ==> v@[j] != o,
        decreases v@.len() - i,
    {
        if v[i] == o {
            return true;
        }
        i += 1;
    }
    false
}

/// `s` holds no offset twice, and none at or past `n`.
pub open spec fn distinct_below(s: Seq<u64>, n: int) -> bool {
    &&& s.no_duplicates()
    &&& forall|i: int| 0 <= i < s.len() ==> #[trigger] s[i] < n
}

proof fn lemma_distinct_below(s: Seq<u64>, n: int)
    requires
        distinct_below(s, n),
        0 <= n,
    ensures
        s.len() <= n,
{
    let m = s.map_values(|x: u64| x as int);
    assert(m.no_duplicates()) by {
        assert forall|i: int, j: int| 0 <= i < m.len() && 0 <= j < m.len() && i != j implies m[i] != m[j] by {
            assert(s[i] != s[j]);
        }
    }
    m.unique_seq_to_set();
    lemma_int_range(0, n);
    assert(m.to_set().subset_of(set_int_range(0, n)));
    lemma_len_subset(m.to_set(), set_int_range(0, n));
}

/// Offsets that are distinct and stand within `n` bytes are at most `n`.
pub proof fn lemma_visited_bound(s: Seq<u64>, n: int)
    requires
        distinct_below(s, n),
        0 <= n,
    ensures
        s.len() <= n,
{
    lemma_distinct_below(s, n);
}

impl TiffMetadataReader {
    /// The offsets of the IFDs read so far, in order.
    pub closed spec fn visited(&self) -> Seq<u64> {
        self.visited@
    }

    /// The offset of the next IFD to read, if any.
    pub closed spec fn next_spec(&self) -> Option<u64> {
        self.next_ifd_offset
    }

    /// The byte order of the file.
    pub closed spec fn endianness_spec(&self) -> Endianness {
        self.endianness
    }

    /// The file is a BigTIFF.
    pub closed spec fn bigtiff_spec(&self) -> bool {
        self.bigtiff
    }

    /// The offsets read so far are distinct and stand within the bytes `s`.
    pub open spec fn wf(&self, s: Seq<u8>) -> bool {
        distinct_below(self.visited(), s.len() as int)
    }

    /// Opens a file whose bytes, from its start, are `data`: reads its header, and no IFD.
    pub fn try_open(data: &[u8]) -> (r: AsyncTiffResult<TiffMetadataReader>)
        ensures
            match header_spec(data@) {
                Ok((e, big, first)) => r matches Ok(m) && m.endianness_spec() == e && m.bigtiff_spec() == big
                    && m.next_spec() == (if first == 0 { None } else { Some(first) }) && m.visited().len() == 0 && m.wf(data@),
                Err(err) => r == Err::<TiffMetadataReader, AsyncTiffError>(err),
            },
    {
        let (endianness, bigtiff, first) = match read_header(data) {
            Ok(h) => h,
            Err(err) => {
                return Err(err);
            },
        };
        let next_ifd_offset = if first == 0 { None } else { Some(first) };
        Ok(TiffMetadataReader { endianness, bigtiff, next_ifd_offset, visited: Vec::new() })
    }

    /// Returns the byte order of the file.
    pub fn endianness(&self) -> (r: Endianness)
        ensures
            r == self.endianness_spec(),
    {
        self.endianness
    }

    /// Returns `true` if this is a BigTIFF file.
    pub fn bigtiff(&self) -> (r: bool)
        ensures
            r == self.bigtiff_spec(),
    {
        self.bigtiff
    }

    /// Returns `true` if there are more IFDs to read.
    pub fn has_next_ifd(&self) -> (r: bool)
        ensures
            r == self.next_spec() is Some,
    {
        self.next_ifd_offset.is_some()
    }

    /// The offset of the start of the next IFD; `None` once all IFDs have been read.
    pub fn next_ifd_offset(&self) -> (r: Option<u64>)
        ensures
            r == self.next_spec(),
    {
        self.next_ifd_offset
    }

    /// Reads the next IFD; `None` once there is none, or where the chain comes back to an IFD
    /// already read.
    pub fn read_next_ifd(&mut self, data: &[u8]) -> (r: AsyncTiffResult<Option<ImageFileDirectory>>)
        requires
            old(self).wf(data@),
        ensures
            final(self).wf(data@),
            final(self).endianness_spec() == old(self).endianness_spec(),
            final(self).bigtiff_spec() == old(self).bigtiff_spec(),
            match old(self).next_spec() {
                None => r matches Ok(None) && final(self).next_spec() is None && final(self).visited() == old(self).visited(),
                Some(o) => if old(self).visited().contains(o) {
                    r matches Ok(None) && final(self).next_spec() is None && final(self).visited() == old(self).visited()
                } else {
                    match r {
                        Ok(Some(ifd)) => ifd_read_at(data@, o, old(self).endianness_spec(), old(self).bigtiff_spec(), Ok(ifd))
                            && final(self).visited() == old(self).visited().push(o)
                            && final(self).next_spec() == ifd.next_ifd_offset,
                        Ok(None) => false,
                        Err(err) => ifd_read_at(data@, o, old(self).endianness_spec(), old(self).bigtiff_spec(), Err(err))
                            && final(self).visited() == old(self).visited() && final(self).next_spec() == old(self).next_spec(),
                    }
                },
            },
    {
        let o = match self.next_ifd_offset {
            Some(o) => o,
            None => {
                return Ok(None);
            },
        };
        if contains_offset(&self.visited, o) {
            self.next_ifd_offset = None;
            return Ok(None);
        }
        let ifd = match read_ifd_at(data, o, self.endianness, self.bigtiff) {
            Ok(ifd) => ifd,
            Err(err) => {
                return Err(err);
            },
        };
        self.visited.push(o);
        self.next_ifd_offset = ifd.next_ifd_offset;
        Ok(Some(ifd))
    }

    /// Reads all the IFDs that are left, in chain order: it succeeds where every IFD of the
    /// chain reads, up to a next offset of 0 or one already read, and otherwise returns the
    /// error of the first IFD that does not.
    pub fn read_all_ifds(&mut self, data: &[u8]) -> (r: AsyncTiffResult<Vec<ImageFileDirectory>>)
        requires
            old(self).wf(data@),
        ensures
            final(self).wf(data@),
            final(self).endianness_spec() == old(self).endianness_spec(),
            final(self).bigtiff_spec() == old(self).bigtiff_spec(),
            final(self).visited() == old(self).visited() + final(self).visited().skip(old(self).visited().len() as int),
            r matches Ok(v) ==> final(self).next_spec() is None && chain_complete(
                data@,
                old(self).endianness_spec(),
                old(self).bigtiff_spec(),
                old(self).next_spec(),
                old(self).visited(),
                final(self).visited().skip(old(self).visited().len() as int),
                v@,
            ),
            r matches Err(err) ==> exists|ifds: Seq<ImageFileDirectory>| #[trigger] chain_fails(
                data@,
                old(self).endianness_spec(),
                old(self).bigtiff_spec(),
                old(self).next_spec(),
                old(self).visited(),
                final(self).visited().skip(old(self).visited().len() as int),
                ifds,
                err,
            ),
    {
        let mut ifds: Vec<ImageFileDirectory> = Vec::new();
        let ghost start = self.visited();
        let ghost first = self.next_spec();
        let ghost e = self.endianness_spec();
        let ghost big = self.bigtiff_spec();
        let ghost n = data@.len();
        proof {
            assert(self.visited().skip(start.len() as int) =~= Seq::<u64>::empty());
            assert(self.visited() =~= start + self.visited().skip(start.len() as int));
        }
        loop
            invariant
                self.wf(data@),
                n == data@.len(),
                start == old(self).visited(),
                first == old(self).next_spec(),
                e == old(self).endianness_spec() && e == self.endianness_spec(),
                big == old(self).bigtiff_spec() && big == self.bigtiff_spec(),
                start.len() <= self.visited().len(),
                self.visited() == start + self.visited().skip(start.len() as int),
                chain_read(data@, e, big, first, self.visited().skip(start.len() as int), ifds@),
                chain_end(first, ifds@) == self.next_spec(),
            decreases n + 1 - self.visited().len(), if self.next_spec() is Some { 1int } else { 0int },
        {
            proof {
                lemma_distinct_below(self.visited(), n as int);
            }
            let ghost before = self.visited();
            let ghost before_ifds = ifds@;
            match self.read_next_ifd(data) {
                Err(err) => {
                    proof {
                        assert(chain_fails(data@, e, big, first, start, self.visited().skip(start.len() as int), ifds@, err));
                    }
                    return Err(err);
                },
                Ok(Some(ifd)) => {
                    ifds.push(ifd);
                    proof {
                        let o = chain_end(first, before_ifds)->0;
                        assert(self.visited() == before.push(o));
                        assert(self.visited().skip(start.len() as int) =~= before.skip(start.len() as int).push(o));
                        assert(self.visited() =~= start + self.visited().skip(start.len() as int));
                        lemma_distinct_below(self.visited(), n as int);
                        let offs = self.visited().skip(start.len() as int);
                        assert forall|i: int| 0 <= i < offs.len() implies #[trigger] ifd_read_at(data@, offs[i], e, big, Ok(ifds@[i])) by {
                            if i < offs.len() - 1 {
                                assert(offs[i] == before.skip(start.len() as int)[i]);
                                assert(ifds@[i] == before_ifds[i]);
                            }
                        }
                        assert forall|i: int| 0 <= i < offs.len() implies Some(#[trigger] offs[i]) == (if i == 0 {
                            first
                        } else {
                            ifds@[i - 1].next_ifd_offset
                        }) by {
                            if i < offs.len() - 1 {
                                assert(offs[i] == before.skip(start.len() as int)[i]);
                            }
                        }
                    }
                },
                Ok(None) => {
                    proof {
                        assert(self.visited() =~= start + self.visited().skip(start.len() as int));
                    }
                    return Ok(ifds);
                },
            }
        }
    }
}

/// The next offset of a chain that starts at `first` after the IFDs `ifds` were read.
pub open spec fn chain_end(first: Option<u64>, ifds: Seq<ImageFileDirectory>) -> Option<u64> {
    if ifds.len() == 0 { first } else { ifds.last().next_ifd_offset }
}

/// The IFDs `ifds` were read, in order, at the offsets `offs` of the chain that starts at
/// `first`: each offset is the next-IFD offset of the IFD before it.
pub open spec fn chain_read(s: Seq<u8>, e: Endianness, bigtiff: bool, first: Option<u64>, offs: Seq<u64>, ifds: Seq<ImageFileDirectory>) -> bool {
    &&& offs.len() == ifds.len()
    &&& forall|i: int| 0 <= i < offs.len() ==> #[trigger] ifd_read_at(s, offs[i], e, bigtiff, Ok(ifds[i]))
    &&& forall|i: int| 0 <= i < offs.len() ==> Some(#[trigger] offs[i]) == (if i == 0 { first } else { ifds[i - 1].next_ifd_offset })
}

/// The chain that starts at `first`, after the offsets `seen` were read, was read whole: the
/// IFDs `ifds` at the new offsets `offs`, none read twice, until a next offset of 0 or one
/// already read.
pub open spec fn chain_complete(s: Seq<u8>, e: Endianness, bigtiff: bool, first: Option<u64>, seen: Seq<u64>, offs: Seq<u64>, ifds: Seq<ImageFileDirectory>) -> bool {
    &&& (seen + offs).no_duplicates()
    &&& chain_read(s, e, bigtiff, first, offs, ifds)
    &&& (chain_end(first, ifds) is None || (seen + offs).contains(chain_end(first, ifds)->0))
}

/// The chain that starts at `first`, after the offsets `seen` were read, was read through the
/// IFDs `ifds` at the new offsets `offs`, and the IFD at the next offset, read for the first
/// time, fails with `err`.
pub open spec fn chain_fails(s: Seq<u8>, e: Endianness, bigtiff: bool, first: Option<u64>, seen: Seq<u64>, offs: Seq<u64>, ifds: Seq<ImageFileDirectory>, err: AsyncTiffError) -> bool {
    &&& (seen + offs).no_duplicates()
    &&& chain_read(s, e, bigtiff, first, offs, ifds)
    &&& chain_end(first, ifds) matches Some(o) && !(seen + offs).contains(o) && ifd_read_at(s, o, e, bigtiff, Err(err))
}

proof fn lemma_entries_read_err_stays(s: Seq<u8>, o: int, e: Endianness, bigtiff: bool, k: int, n: int)
    requires
        0 < k <= n,
        entries_read(s, o, e, bigtiff, k) is Err,
    ensures
        entries_read(s, o, e, bigtiff, n) == entries_read(s, o, e, bigtiff, k),
    decreases n - k,
{
    if k < n {
        lemma_entries_read_err_stays(s, o, e, bigtiff, k + 1, n);
    }
}

} // verus!
