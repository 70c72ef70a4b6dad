//! Range-read parsing and decoding of TIFF and BigTIFF files.
//!
//! The library works on plain byte buffers: metadata is parsed out of the bytes of a file
//! (or of a prefix of it), and tiles are decoded from their compressed bytes. Fetching those
//! bytes from a file, an object store or over HTTP is left to the caller.
use vstd::prelude::*;

pub mod cog;
pub mod decoder;
pub mod endian;
pub mod entry;
pub mod error;
pub mod fetch;
pub mod geo_key_directory;
mod hdiff;
pub mod metadata;
pub mod predictor;
pub mod ifd;
pub mod tags;
pub mod tile;
pub mod value;
