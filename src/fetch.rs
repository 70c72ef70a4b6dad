//! Decisions of the byte-range fetching around the library: what a prefetched head of the
//! file can serve, and how far to grow it when metadata runs past it.
use vstd::prelude::*;

use crate::error::AsyncTiffError;

verus! {

/// A read of `[start, end)` can be served from the first `prefix_len` bytes of the file.
pub open spec fn served_from_prefix(prefix_len: u64, start: u64, end: u64) -> bool {
    start <= end && end <= prefix_len
}

/// Whether a read of `[start, end)` lies within a prefetched head of `prefix_len` bytes; reads
/// that do not are sent to the source.
pub fn within_prefix(prefix_len: u64, start: u64, end: u64) -> (r: bool)
    ensures
        r == served_from_prefix(prefix_len, start, end),
{
    start <= end && end <= prefix_len
}

/// The length of the head of the file to fetch next, after a metadata read over the first
/// `have` bytes failed with `err`: where `err` is a read past the end of those bytes, the
/// larger of the end of that read and twice `have` (saturated); `None` for any other error.
pub open spec fn grown_prefix(have: u64, err: AsyncTiffError) -> Option<u64> {
    match err {
        AsyncTiffError::EndOfFile(start, len) => if start + len <= have {
            None
        } else {
            let need = if start + len > u64::MAX { u64::MAX as int } else { start + len };
            let twice = if 2 * have > u64::MAX { u64::MAX as int } else { 2 * have };
            Some((if need > twice { need } else { twice }) as u64)
        },
        _ => None,
    }
}

/// How far to grow the prefetched head of a file after a metadata read failed.
pub fn grow_prefix(have: u64, err: AsyncTiffError) -> (r: Option<u64>)
    ensures
        r == grown_prefix(have, err),
        r matches Some(n) ==> n >= have,
{
    match err {
        AsyncTiffError::EndOfFile(start, len) => {
            let need = match start.checked_add(len) {
                Some(x) => {
                    if x <= have {
                        return None;
                    }
                    x
                },
                None => u64::MAX,
            };
            let twice = match have.checked_mul(2) {
                Some(x) => x,
                None => u64::MAX,
            };
            Some(if need > twice { need } else { twice })
        },
        _ => None,
    }
}

} // verus!
