//! Decompression of blob payloads: the interface that a decompressor offers, and the default
//! decompressor.

use crate::error::DecompressionError;
use flate2::read::ZlibDecoder;
use std::io::Read;
use vstd::prelude::*;

verus! {

/// Blob compression method.
#[derive(Debug, Clone, Copy, PartialEq, Eq)]
pub enum CompressionMethod {
    /// LZ4
    Lz4,
    /// LZMA
    Lzma,
    /// ZLib
    Zlib,
    /// Zstandard
    Zstd,
}

/// Trait for custom decompression support.
///
/// A decompressor fills a buffer of the uncompressed size or fails. An implementation may say
/// what it does, by `has_model`, `supports` and `decompressed`; the parser's contract is then
/// exact for it. One that says nothing promises only what the signature does.
pub trait Decompressor {
    /// Whether [`Decompressor::supports`] and [`Decompressor::decompressed`] describe this
    /// decompressor.
    open spec fn has_model() -> bool {
        false
    }

    /// Whether the decompressor knows the method `method`. It fails on a method that it does
    /// not know with `UnsupportedCompression`, and on one that it knows with an internal
    /// error. It speaks for the decompressor only where `has_model` holds.
    open spec fn supports(method: CompressionMethod) -> bool {
        false
    }

    /// The bytes that decompressing `input` leaves in a buffer of `len` bytes, or `None` where
    /// decompression fails. It speaks for the decompressor only where `has_model` holds.
    open spec fn decompressed(method: CompressionMethod, input: Seq<u8>, len: nat) -> Option<
        Seq<u8>,
    > {
        None
    }

    /// Decompresses `input` blob into the preallocated `output` slice.
    fn decompress(method: CompressionMethod, input: &[u8], output: &mut [u8]) -> (r: Result<
        (),
        DecompressionError,
    >)
        ensures
            final(output)@.len() == old(output)@.len(),
            Self::has_model() ==> (match Self::decompressed(method, input@, old(output)@.len()) {
                Some(bytes) => r is Ok && final(output)@ == bytes,
                None => r matches Err(e) && (e is UnsupportedCompression <==> !Self::supports(
                    method,
                )),
            }),
    ;
}

/// The bytes that a zlib decoder of `flate2` reading `input` leaves in a buffer of `len`
/// bytes: the first `len` bytes of the uncompressed data. `None` where the decoder fails
/// before the buffer is full, because the input is no zlib stream or holds too little.
pub uninterp spec fn zlib_inflated(input: Seq<u8>, len: nat) -> Option<Seq<u8>>;

/// `std::io::Read::read_exact` on a `flate2::read::ZlibDecoder` over `input`: fills `output`
/// with uncompressed bytes, or fails. The length of `output` stays as it is.
#[verifier::external_body]
fn zlib_read_exact(input: &[u8], output: &mut [u8]) -> (r: Result<(), std::io::Error>)
    ensures
        final(output)@.len() == old(output)@.len(),
        match zlib_inflated(input@, old(output)@.len()) {
            Some(bytes) => r is Ok && final(output)@ == bytes,
            None => r is Err,
        },
{
    ZlibDecoder::new(input).read_exact(output)
}

/// The default blob decompressor.
///
/// Supports ZLib decompression.
pub struct DefaultDecompressor;

impl Decompressor for DefaultDecompressor {
    open spec fn has_model() -> bool {
        true
    }

    open spec fn supports(method: CompressionMethod) -> bool {
        method is Zlib
    }

    open spec fn decompressed(method: CompressionMethod, input: Seq<u8>, len: nat) -> Option<
        Seq<u8>,
    > {
        match method {
            CompressionMethod::Zlib => zlib_inflated(input, len),
            _ => None,
        }
    }

    /// Decompresses zlib data; any other method is unsupported.
    fn decompress(method: CompressionMethod, input: &[u8], output: &mut [u8]) -> (r: Result<
        (),
        DecompressionError,
    >)
        ensures
            !(method is Zlib) ==> r == Err::<(), DecompressionError>(
                DecompressionError::UnsupportedCompression,
            ) && final(output)@ == old(output)@,
            method is Zlib ==> (r is Err ==> r->Err_0 is InternalError),
    {
        match method {
            CompressionMethod::Zlib => match zlib_read_exact(input, output) {
                Ok(_) => Ok(()),
                Err(error) => Err(DecompressionError::InternalError(error)),
            },
            _ => Err(DecompressionError::UnsupportedCompression),
        }
    }
}

} // verus!
