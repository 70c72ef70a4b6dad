//! A TIFF file: its IFDs, read out of the bytes of its head.
use vstd::prelude::*;

use crate::endian::Endianness;
use crate::error::{AsyncTiffError, AsyncTiffResult};
use crate::ifd::ImageFileDirectory;
use crate::metadata::{chain_complete, chain_fails, header_spec, TiffMetadataReader};

verus! {

/// The first IFD offset of a header: 0 stands for none.
pub open spec fn first_offset(first: u64) -> Option<u64> {
    if first == 0 { None } else { Some(first) }
}

/// The chain that starts at `first` reads whole into the IFDs `ifds`, at distinct offsets.
pub open spec fn chain_read_whole(s: Seq<u8>, e: Endianness, bigtiff: bool, first: Option<u64>, ifds: Seq<ImageFileDirectory>) -> bool {
    exists|offs: Seq<u64>| #[trigger] chain_complete(s, e, bigtiff, first, Seq::empty(), offs, ifds)
}

/// Reading the chain that starts at `first` stops on the first IFD that fails with `err`.
pub open spec fn chain_read_fails(s: Seq<u8>, e: Endianness, bigtiff: bool, first: Option<u64>, err: AsyncTiffError) -> bool {
    exists|offs: Seq<u64>, ifds: Seq<ImageFileDirectory>| #[trigger] chain_fails(s, e, bigtiff, first, Seq::empty(), offs, ifds, err)
}

/// A TIFF file, by its IFDs in chain order.
#[derive(Debug)]
pub struct TIFF {
    ifds: Vec<ImageFileDirectory>,
}

impl TIFF {
    /// The IFDs of the file.
    pub closed spec fn spec_ifds(&self) -> Seq<ImageFileDirectory> {
        self.ifds@
    }

    /// A TIFF of existing IFDs.
    pub fn new(ifds: Vec<ImageFileDirectory>) -> (r: TIFF)
        ensures
            r.spec_ifds() == ifds@,
    {
        TIFF { ifds }
    }

    /// Reads the header and every IFD of a file whose bytes, from its start, are `data`: the
    /// header's error, else the IFDs of the whole chain from the first IFD offset (0 for none),
    /// each offset read once, else the error of the first IFD of the chain that does not read.
    pub fn try_open(data: &[u8]) -> (r: AsyncTiffResult<TIFF>)
        ensures
            match header_spec(data@) {
                Err(e) => r == Err::<TIFF, AsyncTiffError>(e),
                Ok((e, big, first)) => {
                    let f = first_offset(first);
                    match r {
                        Ok(t) => t.spec_ifds().len() <= data@.len() && chain_read_whole(data@, e, big, f, t.spec_ifds()),
                        Err(err) => chain_read_fails(data@, e, big, f, err),
                    }
                },
            },
    {
        let mut reader = match TiffMetadataReader::try_open(data) {
            Ok(r) => r,
            Err(e) => {
                return Err(e);
            },
        };
        let ghost e = reader.endianness_spec();
        let ghost big = reader.bigtiff_spec();
        let ghost f = reader.next_spec();
        let ghost seen = reader.visited();
        proof {
            assert(seen =~= Seq::<u64>::empty());
        }
        match reader.read_all_ifds(data) {
            Ok(ifds) => {
                proof {
                    crate::metadata::lemma_visited_bound(reader.visited(), data@.len() as int);
                    let offs = reader.visited().skip(0);
                    assert(chain_complete(data@, e, big, f, Seq::empty(), offs, ifds@));
                }
                let t = TIFF { ifds };
                proof {
                    let offs = reader.visited().skip(0);
                    assert(chain_complete(data@, e, big, f, Seq::empty(), offs, t.spec_ifds()));
                    assert(chain_read_whole(data@, e, big, f, t.spec_ifds()));
                    assert(header_spec(data@) == Ok::<(Endianness, bool, u64), AsyncTiffError>((e, big, header_spec(data@)->Ok_0.2)));
                }
                Ok(t)
            },
            Err(err) => {
                proof {
                    let offs = reader.visited().skip(0);
                    let ifds = choose|ifds: Seq<ImageFileDirectory>| #[trigger] chain_fails(data@, e, big, f, seen, offs, ifds, err);
                    assert(header_spec(data@) == Ok::<(Endianness, bool, u64), AsyncTiffError>((e, big, header_spec(data@)->Ok_0.2)));
                    assert(f == first_offset(header_spec(data@)->Ok_0.2));
                    assert(chain_fails(data@, e, big, first_offset(header_spec(data@)->Ok_0.2), Seq::empty(), offs, ifds, err));
                    assert(chain_read_fails(data@, e, big, f, err));
                }
                Err(err)
            },
        }
    }

    /// The IFDs of the file, in chain order.
    pub fn ifds(&self) -> (r: &[ImageFileDirectory])
        ensures
            r@ == self.spec_ifds(),
    {
        self.ifds.as_slice()
    }
}

} // verus!
