//! The block parser: it unwraps the blob of a raw block into a buffer of its own, decompressing
//! where needed, and hands out the bytes of the block by what the frame said they are.

use crate::blob::{BlockType, RawBlock, RawBlockView};
use crate::decompress::{CompressionMethod, Decompressor, DefaultDecompressor};
use crate::error::{DecompressionError, Error, ErrorKind};
use crate::pbf::{parse_blob, Blob, BlobData, BlobDataView};
use prost::DecodeError;
use std::marker::PhantomData;
use vstd::prelude::*;

verus! {

/// Result of [`BlockParser::parse_block`]: the bytes of a block, borrowed from the buffer of
/// the parser and so valid until its next call.
#[derive(Debug, Clone, Copy)]
pub enum Block<'a> {
    /// The bytes of an `OSMHeader` block: an encoded header block message.
    Header(&'a [u8]),
    /// The bytes of an `OSMData` block: an encoded primitive block message.
    Primitive(&'a [u8]),
    /// The bytes of an unknown block.
    Unknown(&'a [u8]),
}

/// A [`Block`] as a mathematical value.
pub struct BlockView {
    pub block_type: BlockType,
    pub bytes: Seq<u8>,
}

impl<'a> View for Block<'a> {
    type V = BlockView;

    open spec fn view(&self) -> BlockView {
        match self {
            Block::Header(bytes) => BlockView { block_type: BlockType::Header, bytes: bytes@ },
            Block::Primitive(bytes) => BlockView {
                block_type: BlockType::Primitive,
                bytes: bytes@,
            },
            Block::Unknown(bytes) => BlockView { block_type: BlockType::Unknown, bytes: bytes@ },
        }
    }
}

impl<'a> Block<'a> {
    /// The block of the type `block_type` with the bytes `bytes`.
    pub fn new(block_type: BlockType, bytes: &'a [u8]) -> (r: Block<'a>)
        ensures
            r@ == (BlockView { block_type, bytes: bytes@ }),
    {
        match block_type {
            BlockType::Header => Block::Header(bytes),
            BlockType::Primitive => Block::Primitive(bytes),
            BlockType::Unknown => Block::Unknown(bytes),
        }
    }

    /// What a decompressor's result makes of the buffer it filled: the block of the type
    /// `block_type` with the bytes `buffer` where it succeeded, and its error where it failed.
    pub fn decompressed(
        block_type: BlockType,
        buffer: &'a [u8],
        result: Result<(), DecompressionError>,
    ) -> (r: Result<Block<'a>, Error>)
        ensures
            match result {
                Ok(_) => r matches Ok(block) && block@ == (BlockView {
                    block_type,
                    bytes: buffer@,
                }),
                Err(error) => r matches Err(e) && e == Error::DecompressionError(error),
            },
    {
        match result {
            Ok(_) => Ok(Block::new(block_type, buffer)),
            Err(error) => Err(Error::DecompressionError(error)),
        }
    }
}

/// A block whose message was decoded: a header block, a primitive block, or the bytes of an
/// unknown block.
#[derive(Debug)]
pub enum DecodedBlock<'a, H, P> {
    /// A decoded `OSMHeader` block.
    Header(H),
    /// A decoded `OSMData` (primitive) block.
    Primitive(P),
    /// An unknown block.
    Unknown(&'a [u8]),
}

impl<'a> Block<'a> {
    /// Decodes the message of a header or primitive block with the decoder for its type, and
    /// leaves an unknown block as it is. What a decoder returns for the bytes of the block is
    /// the result: its message, or its error as a parse error.
    pub fn decode_with<H, P, F, G>(self, decode_header: F, decode_primitive: G) -> (r: Result<
        DecodedBlock<'a, H, P>,
        Error,
    >) where
        F: FnOnce(&'a [u8]) -> Result<H, DecodeError>,
        G: FnOnce(&'a [u8]) -> Result<P, DecodeError>,

        requires
            self matches Block::Header(bytes) ==> call_requires(decode_header, (bytes,)),
            self matches Block::Primitive(bytes) ==> call_requires(decode_primitive, (bytes,)),
        ensures
            match self {
                Block::Header(bytes) => match r {
                    Ok(block) => block matches DecodedBlock::Header(header) && call_ensures(
                        decode_header,
                        (bytes,),
                        Ok(header),
                    ),
                    Err(e) => e matches Error::PbfParseError(cause) && call_ensures(
                        decode_header,
                        (bytes,),
                        Err(cause),
                    ),
                },
                Block::Primitive(bytes) => match r {
                    Ok(block) => block matches DecodedBlock::Primitive(primitive) && call_ensures(
                        decode_primitive,
                        (bytes,),
                        Ok(primitive),
                    ),
                    Err(e) => e matches Error::PbfParseError(cause) && call_ensures(
                        decode_primitive,
                        (bytes,),
                        Err(cause),
                    ),
                },
                Block::Unknown(bytes) => r matches Ok(DecodedBlock::Unknown(same)) && same == bytes,
            },
    {
        match self {
            Block::Header(bytes) => match decode_header(bytes) {
                Ok(header) => Ok(DecodedBlock::Header(header)),
                Err(error) => Err(Error::PbfParseError(error)),
            },
            Block::Primitive(bytes) => match decode_primitive(bytes) {
                Ok(primitive) => Ok(DecodedBlock::Primitive(primitive)),
                Err(error) => Err(Error::PbfParseError(error)),
            },
            Block::Unknown(bytes) => Ok(DecodedBlock::Unknown(bytes)),
        }
    }
}

/// The bytes `buffer` brought to the length `len`: cut, or filled up with zeros.
pub open spec fn resized(buffer: Seq<u8>, len: nat) -> Seq<u8> {
    if len <= buffer.len() {
        buffer.take(len as int)
    } else {
        buffer + Seq::new((len - buffer.len()) as nat, |i: int| 0u8)
    }
}

/// The method by which a payload is compressed, and its bytes; `None` for a payload that is
/// not compressed and for the obsolete one.
pub open spec fn compressed(data: BlobDataView) -> Option<(CompressionMethod, Seq<u8>)> {
    match data {
        BlobDataView::ZlibData(bytes) => Some((CompressionMethod::Zlib, bytes)),
        BlobDataView::LzmaData(bytes) => Some((CompressionMethod::Lzma, bytes)),
        BlobDataView::Lz4Data(bytes) => Some((CompressionMethod::Lz4, bytes)),
        BlobDataView::ZstdData(bytes) => Some((CompressionMethod::Zstd, bytes)),
        BlobDataView::Raw(_) => None,
        BlobDataView::ObsoleteBzip2Data(_) => None,
    }
}

/// What parsing a raw block comes to.
pub enum Outcome {
    /// The block. The buffer holds its bytes.
    Block(BlockView),
    /// The blob cannot be decoded. The buffer is as it was.
    Malformed,
    /// The blob declares a negative size, or has no payload or the obsolete one. The buffer
    /// holds `buffer`.
    Invalid { buffer: Seq<u8> },
    /// The decompressor failed, with an error of the kind `kind`: `UnsupportedCompression`
    /// for a method that it does not know, `Decompression` for one that it knows. The buffer
    /// holds `len` bytes.
    Undecompressed { kind: ErrorKind, len: nat },
    /// The decompressor, of which no more is known, decides: the result is the block of the
    /// type `block_type` with the `len` bytes that it left in the buffer, or its error.
    Decided { block_type: BlockType, len: nat },
}

/// The buffer made ready for a payload: brought to the uncompressed size where the blob
/// declares one, and left as it is where it declares none. `None` for a negative size.
pub open spec fn staged(buffer: Seq<u8>, raw_size: Option<i32>) -> Option<Seq<u8>> {
    match raw_size {
        Some(size) => if size < 0 {
            None
        } else {
            Some(resized(buffer, size as nat))
        },
        None => Some(buffer),
    }
}

/// What parsing the raw block `raw` comes to for a parser with the decompressor `D` whose
/// buffer holds `buffer`.
///
/// The blob is decoded first, and the buffer is made ready. An uncompressed payload is then
/// copied into the buffer, which holds the payload and nothing else. A compressed payload is
/// decompressed into the buffer, filling it as it stands.
pub open spec fn outcome<D: Decompressor>(buffer: Seq<u8>, raw: RawBlockView) -> Outcome {
    match parse_blob(raw.data) {
        None => Outcome::Malformed,
        Some(blob) => match staged(buffer, blob.raw_size) {
            None => Outcome::Invalid { buffer },
            Some(staged) => match blob.data {
                None => Outcome::Invalid { buffer: staged },
                Some(BlobDataView::ObsoleteBzip2Data(_)) => Outcome::Invalid { buffer: staged },
                Some(BlobDataView::Raw(bytes)) => Outcome::Block(
                    BlockView { block_type: raw.block_type, bytes },
                ),
                Some(data) => {
                    let (method, input) = compressed(data)->0;
                    if !D::has_model() {
                        Outcome::Decided { block_type: raw.block_type, len: staged.len() }
                    } else {
                        match D::decompressed(method, input, staged.len()) {
                            Some(bytes) => Outcome::Block(
                                BlockView { block_type: raw.block_type, bytes },
                            ),
                            None => Outcome::Undecompressed {
                                kind: if D::supports(method) {
                                    ErrorKind::Decompression
                                } else {
                                    ErrorKind::UnsupportedCompression
                                },
                                len: staged.len(),
                            },
                        }
                    }
                },
            },
        },
    }
}

/// Parser with an internal buffer for `RawBlock`s.
///
/// When multiple threads are used to speed up parsing, it's recommended to use a single
/// `BlockParser` per thread (e.g. by making it thread local), so its internal buffer remains
/// alive, avoiding repeated memory allocations.
pub struct BlockParser<D: Decompressor = DefaultDecompressor> {
    block_buffer: Vec<u8>,
    decompressor: PhantomData<D>,
}

impl Default for BlockParser {
    fn default() -> (r: BlockParser)
        ensures
            r.buffer() == Seq::<u8>::empty(),
    {
        BlockParser::<DefaultDecompressor>::new()
    }
}

impl<D: Decompressor> BlockParser<D> {
    /// The bytes that the buffer holds.
    pub closed spec fn buffer(&self) -> Seq<u8> {
        self.block_buffer@
    }

    /// Creates a new `BlockParser`, with an empty buffer.
    pub fn new() -> (r: Self)
        ensures
            r.buffer() == Seq::<u8>::empty(),
    {
        Self { block_buffer: Vec::new(), decompressor: PhantomData }
    }

    /// Parses `raw_block` into a header, primitive or unknown block.
    ///
    /// What comes back is what [`outcome`] says of the buffer as it was and the raw block: the
    /// block, whose bytes the buffer then holds; or a parse error for a blob that cannot be
    /// decoded, `InvalidBlobData` for a blob without a usable payload, and a decompression
    /// error where the decompressor fails, which is `UnsupportedCompression` for a method
    /// that the decompressor does not know.
    pub fn parse_block<'a>(&'a mut self, raw_block: RawBlock) -> (r: Result<Block<'a>, Error>)
        ensures
            match outcome::<D>(old(self).buffer(), raw_block@) {
                Outcome::Block(block) => r matches Ok(b) && b@ == block && final(self).buffer()
                    == block.bytes,
                Outcome::Malformed => r matches Err(e) && e is PbfParseError && final(self).buffer()
                    == old(self).buffer(),
                Outcome::Invalid { buffer } => r matches Err(e) && e is InvalidBlobData
                    && final(self).buffer() == buffer,
                Outcome::Undecompressed { kind, len } => r matches Err(e) && e.kind() == kind
                    && final(self).buffer().len() == len,
                Outcome::Decided { block_type, len } => final(self).buffer().len() == len
                    && match r {
                    Ok(b) => b@ == (BlockView { block_type, bytes: final(self).buffer() }),
                    Err(e) => e is DecompressionError,
                },
            },
    {
        let blob = match Blob::decode(raw_block.data()) {
            Ok(blob) => blob,
            Err(error) => {
                return Err(error);
            },
        };
        if let Some(uncompressed_size) = blob.raw_size {
            if uncompressed_size < 0 {
                return Err(Error::InvalidBlobData);
            }
            self.block_buffer.resize(uncompressed_size as usize, 0u8);
            assert(self.block_buffer@ =~= resized(old(self).buffer(), uncompressed_size as nat));
        }
        let decompressed = match blob.data {
            Some(BlobData::Raw(raw_data)) => {
                self.block_buffer.clear();
                self.block_buffer.extend_from_slice(raw_data.as_slice());
                assert(self.block_buffer@ =~= raw_data@);
                Ok(())
            },
            Some(BlobData::ZlibData(zlib_data)) => D::decompress(
                CompressionMethod::Zlib,
                zlib_data.as_slice(),
                self.block_buffer.as_mut_slice(),
            ),
            Some(BlobData::Lz4Data(lz4_data)) => D::decompress(
                CompressionMethod::Lz4,
                lz4_data.as_slice(),
                self.block_buffer.as_mut_slice(),
            ),
            Some(BlobData::LzmaData(lzma_data)) => D::decompress(
                CompressionMethod::Lzma,
                lzma_data.as_slice(),
                self.block_buffer.as_mut_slice(),
            ),
            Some(BlobData::ZstdData(zstd_data)) => D::decompress(
                CompressionMethod::Zstd,
                zstd_data.as_slice(),
                self.block_buffer.as_mut_slice(),
            ),
            Some(BlobData::ObsoleteBzip2Data(_)) => {
                return Err(Error::InvalidBlobData);
            },
            None => {
                return Err(Error::InvalidBlobData);
            },
        };
        Block::decompressed(raw_block.block_type(), self.block_buffer.as_slice(), decompressed)
    }
}

/// A blob whose payload is the obsolete one is invalid, whatever the decompressor and whatever
/// the buffer holds.
pub proof fn lemma_obsolete_payload_is_invalid<D: Decompressor>(buffer: Seq<u8>, raw: RawBlockView)
    requires
        parse_blob(raw.data) matches Some(blob) && blob.data matches Some(
            BlobDataView::ObsoleteBzip2Data(_),
        ),
    ensures
        outcome::<D>(buffer, raw) is Invalid,
{
}

/// Parsing is deterministic: two parsers with the same decompressor whose buffers hold the
/// same bytes make the same of the same raw block. Two new parsers are such a pair. Nothing is
/// left to the decompressor where it has a model.
pub proof fn lemma_parsing_is_deterministic<D: Decompressor>(
    first: Seq<u8>,
    second: Seq<u8>,
    raw: RawBlockView,
    other: RawBlockView,
)
    requires
        first == second,
        raw == other,
    ensures
        outcome::<D>(first, raw) == outcome::<D>(second, other),
        D::has_model() ==> !(outcome::<D>(first, raw) is Decided),
{
}

/// Nothing is left over from earlier blocks in a block that is not compressed, nor in one that
/// declares its size: any two parsers with the same decompressor make the same of it,
/// whatever their buffers hold.
pub proof fn lemma_block_ignores_buffer<D: Decompressor>(
    first: Seq<u8>,
    second: Seq<u8>,
    raw: RawBlockView,
)
    requires
        parse_blob(raw.data) matches Some(blob) && !(blob.raw_size matches Some(size) && size < 0)
            && (blob.data matches Some(data) && (data is Raw || (blob.raw_size is Some
            && compressed(data) is Some))),
    ensures
        outcome::<D>(first, raw) == outcome::<D>(second, raw),
{
}

/// With the default decompressor a payload of any method but zlib fails as unsupported.
pub proof fn lemma_default_supports_zlib_only(buffer: Seq<u8>, raw: RawBlockView)
    requires
        parse_blob(raw.data) matches Some(blob) && !(blob.raw_size matches Some(size) && size < 0)
            && (blob.data matches Some(data) && (data is LzmaData || data is Lz4Data
            || data is ZstdData)),
    ensures
        outcome::<DefaultDecompressor>(buffer, raw) matches Outcome::Undecompressed { kind, .. }
            && kind == ErrorKind::UnsupportedCompression,
{
}

} // verus!
