//! A low-level library for decoding OSM data in PBF format, verified with Verus.
//!
//! An OSM PBF file is a sequence of frames. [`read_blob`] takes the next frame off an input
//! that is held in memory; [`blob::FrameState`] does the same part by part, for an input that
//! is read as it comes. The [`RawBlock`] of a frame is unwrapped, and decompressed where needed,
//! by [`BlockParser::parse_block`], which hands out the bytes of the block as a [`Block`].
//!
//! The readers work on the parts of a decoded primitive block: [`DenseNodeReader`] unpacks
//! densely packed nodes, [`DenseTagReader`] and [`TagReader`] look up tags in the string table,
//! and [`DeltaValueReader`] reads delta coded values.
//!
//! Every function states what it returns as a function of its input; these statements are
//! proved. What is not proved is what the library takes from elsewhere: the decoding of
//! protocol-buffer fields by `prost` in [`wire`], the inflating of zlib data by `flate2` in
//! [`decompress`], and a few functions of the standard library. Their contracts are stated
//! where they are called.
//!
//! # Links
//!
//! - [OSM PBF format documentation](https://wiki.openstreetmap.org/wiki/PBF_Format)

pub mod blob;
pub mod block;
pub mod decompress;
pub mod delta;
pub mod dense;
pub mod error;
pub mod pbf;
pub mod tags;
pub mod wire;

pub use blob::{read_blob, RawBlock};
pub use block::{Block, BlockParser};
pub use decompress::{CompressionMethod, Decompressor, DefaultDecompressor};
pub use delta::{delta_decode, DeltaValue, DeltaValueReader};
pub use dense::{DenseNode, DenseNodeReader};
pub use error::{DecompressionError, Error};
pub use tags::{DenseTagReader, TagReader};
