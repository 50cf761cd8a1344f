//! Frames: a stream is a sequence of frames, each a length prefix, a blob header and the bytes
//! of a blob. This module takes one frame off the head of an input.

use crate::error::{unexpected_eof, Error, ErrorKind};
use crate::pbf::{parse_blob_header, BlobHeader};
use vstd::prelude::*;
use vstd::slice::{slice_subrange, slice_to_vec};
use vstd::std_specs::convert::FromSpecImpl;
use vstd::utf8::encode_utf8_decode_utf8;

verus! {

/// The number of bytes of the length prefix of a frame.
pub const PREFIX_LEN: usize = 4;

/// The size that a blob header must stay below: 64 KiB.
pub const MAX_BLOB_HEADER_SIZE: i32 = 64 * 1024;

/// The size that the blob of a frame must stay below: 32 MiB.
pub const MAX_BLOB_DATA_SIZE: i32 = 32 * 1024 * 1024;

/// What a frame says it holds.
#[derive(Debug, Clone, Copy, PartialEq, Eq)]
pub enum BlockType {
    Header,
    Primitive,
    Unknown,
}

/// The block type that the type string `name` of a blob header stands for.
pub open spec fn block_type_of(name: Seq<char>) -> BlockType {
    if name == "OSMHeader"@ {
        BlockType::Header
    } else if name == "OSMData"@ {
        BlockType::Primitive
    } else {
        BlockType::Unknown
    }
}

/// Whether two slices hold the same bytes.
fn bytes_eq(a: &[u8], b: &[u8]) -> (r: bool)
    ensures
        r == (a@ == b@),
{
    if a.len() != b.len() {
        return false;
    }
    let mut i: usize = 0;
    while i < a.len()
        invariant
            a@.len() == b@.len(),
            i <= a@.len(),
            a@.take(i as int) == b@.take(i as int),
        decreases a@.len() - i,
    {
        if a[i] != b[i] {
            return false;
        }
        i += 1;
    }
    assert(a@ =~= a@.take(i as int) && b@ =~= b@.take(i as int));
    true
}

/// Whether two strings are the same text: they are exactly where their encodings are.
fn str_eq(a: &str, b: &str) -> (r: bool)
    ensures
        r == (a@ == b@),
{
    proof {
        encode_utf8_decode_utf8(a@);
        encode_utf8_decode_utf8(b@);
    }
    bytes_eq(a.as_bytes(), b.as_bytes())
}

impl From<&str> for BlockType {
    /// The block type that a type string stands for, as [`block_type_of`] says.
    fn from(value: &str) -> (r: BlockType) {
        if str_eq(value, "OSMHeader") {
            BlockType::Header
        } else if str_eq(value, "OSMData") {
            BlockType::Primitive
        } else {
            BlockType::Unknown
        }
    }
}

impl FromSpecImpl<&str> for BlockType {
    open spec fn obeys_from_spec() -> bool {
        true
    }

    open spec fn from_spec(value: &str) -> BlockType {
        block_type_of(value@)
    }
}

/// An unparsed, possibly compressed block.
#[derive(Debug)]
pub struct RawBlock {
    block_type: BlockType,
    data: Vec<u8>,
}

/// A [`RawBlock`] as a mathematical value.
pub struct RawBlockView {
    pub block_type: BlockType,
    pub data: Seq<u8>,
}

impl View for RawBlock {
    type V = RawBlockView;

    closed spec fn view(&self) -> RawBlockView {
        RawBlockView { block_type: self.block_type, data: self.data@ }
    }
}

impl RawBlock {
    /// A block of the type `block_type` whose blob has the bytes `data`.
    pub fn new(block_type: BlockType, data: Vec<u8>) -> (r: RawBlock)
        ensures
            r@ == (RawBlockView { block_type, data: data@ }),
    {
        RawBlock { block_type, data }
    }

    /// What the frame said this block holds.
    pub fn block_type(&self) -> (r: BlockType)
        ensures
            r == self@.block_type,
    {
        self.block_type
    }

    /// The bytes of the blob.
    pub fn data(&self) -> (r: &[u8])
        ensures
            r@ == self@.data,
    {
        self.data.as_slice()
    }
}

/// The signed 32-bit number that the first four of `bytes` are in big-endian order.
pub open spec fn be_i32(bytes: Seq<u8>) -> int {
    let unsigned = bytes[0] * 0x100_0000 + bytes[1] * 0x1_0000 + bytes[2] * 0x100 + bytes[3];
    if unsigned >= 0x8000_0000 {
        unsigned - 0x1_0000_0000
    } else {
        unsigned
    }
}

/// What stands at the head of an input.
pub enum Frame {
    /// The input is empty: there are no more frames.
    End,
    /// A frame of `len` bytes in all, with a block of the type `block_type` whose blob has the
    /// bytes `data`.
    Block { block_type: BlockType, data: Seq<u8>, len: nat },
    /// No frame can be read. The failure uses up `consumed` bytes of the input.
    Failed { kind: ErrorKind, consumed: nat },
}

/// What stands at the head of `input`.
///
/// An input that ends before a part of the frame is complete fails with `Io` and is used up;
/// that includes an input of one to three bytes. A header size outside `0..65536` fails with
/// `InvalidBlobHeader`, a header that cannot be decoded with `Parse`, and a blob size outside
/// `0..33554432` with `InvalidBlobData`; these use up the input as far as it was read.
pub open spec fn frame_at(input: Seq<u8>) -> Frame {
    if input.len() == 0 {
        Frame::End
    } else if input.len() < PREFIX_LEN {
        Frame::Failed { kind: ErrorKind::Io, consumed: input.len() }
    } else {
        let header_size = be_i32(input);
        let header_end = PREFIX_LEN + header_size;
        if !(0 <= header_size < MAX_BLOB_HEADER_SIZE) {
            Frame::Failed { kind: ErrorKind::InvalidBlobHeader, consumed: PREFIX_LEN as nat }
        } else if input.len() < header_end {
            Frame::Failed { kind: ErrorKind::Io, consumed: input.len() }
        } else {
            match parse_blob_header(input.subrange(PREFIX_LEN as int, header_end)) {
                None => Frame::Failed { kind: ErrorKind::Parse, consumed: header_end as nat },
                Some(header) => {
                    let end = header_end + header.datasize;
                    if !(0 <= header.datasize < MAX_BLOB_DATA_SIZE) {
                        Frame::Failed {
                            kind: ErrorKind::InvalidBlobData,
                            consumed: header_end as nat,
                        }
                    } else if input.len() < end {
                        Frame::Failed { kind: ErrorKind::Io, consumed: input.len() }
                    } else {
                        Frame::Block {
                            block_type: block_type_of(header.block_type),
                            data: input.subrange(header_end, end),
                            len: end as nat,
                        }
                    }
                },
            }
        }
    }
}

/// The size of the blob header that follows the length prefix `prefix`: the prefix read as a
/// signed big-endian number, or `InvalidBlobHeader` where that is negative or not below 64 KiB.
pub fn blob_header_size(prefix: [u8; 4]) -> (r: Result<usize, Error>)
    ensures
        match r {
            Ok(size) => size == be_i32(prefix@) && size < MAX_BLOB_HEADER_SIZE,
            Err(e) => !(0 <= be_i32(prefix@) < MAX_BLOB_HEADER_SIZE) && e
                is InvalidBlobHeader,
        },
{
    let unsigned: i64 = (prefix[0] as i64) * 0x100_0000 + (prefix[1] as i64) * 0x1_0000 + (
    prefix[2] as i64) * 0x100 + (prefix[3] as i64);
    let size: i64 = if unsigned >= 0x8000_0000 {
        unsigned - 0x1_0000_0000
    } else {
        unsigned
    };
    if 0 <= size && size < MAX_BLOB_HEADER_SIZE as i64 {
        Ok(size as usize)
    } else {
        Err(Error::InvalidBlobHeader)
    }
}

/// The size of the blob that follows `header`: its `datasize`, or `InvalidBlobData` where that
/// is negative or not below 32 MiB.
pub fn blob_data_size(header: &BlobHeader) -> (r: Result<usize, Error>)
    ensures
        match r {
            Ok(size) => size == header.datasize && size < MAX_BLOB_DATA_SIZE,
            Err(e) => !(0 <= header.datasize < MAX_BLOB_DATA_SIZE) && e is InvalidBlobData,
        },
{
    if 0 <= header.datasize && header.datasize < MAX_BLOB_DATA_SIZE {
        Ok(header.datasize as usize)
    } else {
        Err(Error::InvalidBlobData)
    }
}

/// What the reader of a frame awaits next. A frame is read in three parts, each of a size that
/// the part before it decides.
#[derive(Debug, Clone, Copy)]
pub enum FrameState {
    /// The length prefix.
    Prefix,
    /// A blob header of `size` bytes.
    Header { size: usize },
    /// The blob of a block of the type `block_type`, of `size` bytes.
    Data { block_type: BlockType, size: usize },
}

/// What a part of a frame leads to.
#[derive(Debug)]
pub enum Step {
    /// The input ended where a frame would begin: there are no more frames.
    End,
    /// Another part is awaited.
    Await(FrameState),
    /// The frame is complete.
    Done(RawBlock),
}

/// A [`Step`] as a mathematical value.
pub enum StepView {
    End,
    Await(FrameState),
    Done(RawBlockView),
}

impl View for Step {
    type V = StepView;

    open spec fn view(&self) -> StepView {
        match self {
            Step::End => StepView::End,
            Step::Await(state) => StepView::Await(*state),
            Step::Done(raw) => StepView::Done(raw@),
        }
    }
}

impl FrameState {
    /// The number of bytes of the part that is awaited.
    pub open spec fn wanted_len(self) -> nat {
        match self {
            FrameState::Prefix => PREFIX_LEN as nat,
            FrameState::Header { size } => size as nat,
            FrameState::Data { size, .. } => size as nat,
        }
    }

    /// What the bytes `bytes` lead to, read from the input as the part that is awaited.
    ///
    /// Bytes of another length than the awaited one mean that the input ended early, which is
    /// an `Io` failure; but an input that ends before the first byte of a length prefix ends
    /// cleanly.
    pub open spec fn advanced(self, bytes: Seq<u8>) -> Result<StepView, ErrorKind> {
        if self is Prefix && bytes.len() == 0 {
            Ok(StepView::End)
        } else if bytes.len() != self.wanted_len() {
            Err(ErrorKind::Io)
        } else {
            match self {
                FrameState::Prefix => if 0 <= be_i32(bytes) < MAX_BLOB_HEADER_SIZE {
                    Ok(StepView::Await(FrameState::Header { size: be_i32(bytes) as usize }))
                } else {
                    Err(ErrorKind::InvalidBlobHeader)
                },
                FrameState::Header { .. } => match parse_blob_header(bytes) {
                    None => Err(ErrorKind::Parse),
                    Some(header) => if 0 <= header.datasize < MAX_BLOB_DATA_SIZE {
                        Ok(
                            StepView::Await(
                                FrameState::Data {
                                    block_type: block_type_of(header.block_type),
                                    size: header.datasize as usize,
                                },
                            ),
                        )
                    } else {
                        Err(ErrorKind::InvalidBlobData)
                    },
                },
                FrameState::Data { block_type, .. } => Ok(
                    StepView::Done(RawBlockView { block_type, data: bytes }),
                ),
            }
        }
    }

    /// The state in which a frame begins.
    pub fn new() -> (r: FrameState)
        ensures
            r is Prefix,
    {
        FrameState::Prefix
    }

    /// The number of bytes to read from the input next.
    pub fn wanted(&self) -> (r: usize)
        ensures
            r == self.wanted_len(),
    {
        match self {
            FrameState::Prefix => PREFIX_LEN,
            FrameState::Header { size } => *size,
            FrameState::Data { size, .. } => *size,
        }
    }

    /// Takes the bytes that were read for the awaited part, all of them or as many as the
    /// input still had, and says what follows, as [`FrameState::advanced`] does.
    pub fn advance(self, bytes: Vec<u8>) -> (r: Result<Step, Error>)
        ensures
            match self.advanced(bytes@) {
                Ok(step) => r matches Ok(s) && s@ == step,
                Err(kind) => r matches Err(e) && e.kind() == kind,
            },
    {
        if bytes.len() != self.wanted() {
            return match self {
                FrameState::Prefix if bytes.len() == 0 => Ok(Step::End),
                _ => Err(Error::IoError(unexpected_eof())),
            };
        }
        match self {
            FrameState::Prefix => {
                let size = blob_header_size([bytes[0], bytes[1], bytes[2], bytes[3]])?;
                Ok(Step::Await(FrameState::Header { size }))
            },
            FrameState::Header { .. } => {
                let header = BlobHeader::decode(bytes.as_slice())?;
                let block_type = BlockType::from(header.block_type.as_str());
                let size = blob_data_size(&header)?;
                Ok(Step::Await(FrameState::Data { block_type, size }))
            },
            FrameState::Data { block_type, .. } => Ok(Step::Done(RawBlock::new(block_type, bytes))),
        }
    }
}

/// Takes the next `wanted` bytes off `input`, or all that is left where that is less.
fn take_part(input: &mut &[u8], wanted: usize) -> (part: Vec<u8>)
    ensures
        part@ == old(input)@.take(
            if wanted <= old(input)@.len() {
                wanted as int
            } else {
                old(input)@.len() as int
            },
        ),
        final(input)@ == old(input)@.skip(part@.len() as int),
{
    let all: &[u8] = *input;
    let n = if wanted <= all.len() {
        wanted
    } else {
        all.len()
    };
    *input = slice_subrange(all, n, all.len());
    slice_to_vec(slice_subrange(all, 0, n))
}

/// Reads the next blob from `pbf`, and moves `pbf` past what was read.
///
/// Returns `None` where the input is empty, and otherwise the block of the frame at the head
/// of the input or the reason why there is none, as [`frame_at`] says.
pub fn read_blob(pbf: &mut &[u8]) -> (r: Option<Result<RawBlock, Error>>)
    ensures
        match frame_at(old(pbf)@) {
            Frame::End => r is None && final(pbf)@ == old(pbf)@,
            Frame::Block { block_type, data, len } => r matches Some(Ok(raw)) && raw@ == (
            RawBlockView { block_type, data }) && final(pbf)@ == old(pbf)@.skip(len as int),
            Frame::Failed { kind, consumed } => r matches Some(Err(e)) && e.kind() == kind
                && final(pbf)@ == old(pbf)@.skip(consumed as int),
        },
{
    let ghost input = pbf@;
    let mut state = FrameState::new();
    let ghost mut consumed: int = 0;
    loop
        invariant
            input == old(pbf)@,
            0 <= consumed <= input.len(),
            pbf@ == input.skip(consumed),
            match state {
                FrameState::Prefix => consumed == 0,
                FrameState::Header { size } => {
                    &&& consumed == PREFIX_LEN
                    &&& size == be_i32(input)
                    &&& size < MAX_BLOB_HEADER_SIZE
                },
                FrameState::Data { block_type, size } => {
                    &&& 0 <= be_i32(input) < MAX_BLOB_HEADER_SIZE
                    &&& consumed == PREFIX_LEN + be_i32(input)
                    &&& parse_blob_header(input.subrange(PREFIX_LEN as int, consumed)) matches Some(
                        header,
                    ) && header.datasize == size && size < MAX_BLOB_DATA_SIZE && block_type
                        == block_type_of(header.block_type)
                },
            },
        decreases
            match state {
                FrameState::Prefix => 2nat,
                FrameState::Header { .. } => 1nat,
                FrameState::Data { .. } => 0nat,
            },
    {
        let part = take_part(pbf, state.wanted());
        proof {
            assert(part@ =~= input.subrange(consumed, consumed + part@.len()));
            consumed = consumed + part@.len();
        }
        match state.advance(part) {
            Ok(Step::End) => {
                return None;
            },
            Ok(Step::Await(next)) => {
                state = next;
            },
            Ok(Step::Done(raw)) => {
                return Some(Ok(raw));
            },
            Err(e) => {
                return Some(Err(e));
            },
        }
    }
}

/// No part of a frame is awaited at a size that was not checked: the parts that follow a length
/// prefix and a header are below the limits of 64 KiB and 32 MiB.
pub proof fn lemma_awaited_sizes_are_bounded(state: FrameState, bytes: Seq<u8>)
    ensures
        state.advanced(bytes) matches Ok(StepView::Await(next)) ==> (match next {
            FrameState::Prefix => false,
            FrameState::Header { size } => state is Prefix && size < 65536,
            FrameState::Data { size, .. } => state is Header && size < 33554432,
        }),
{
}

/// A frame that was cut short is never read as a frame: where `input` starts with a frame of
/// `len` bytes, every input that ends after one or more but fewer than `len` of those bytes
/// fails with `Io`.
pub proof fn lemma_truncated_frame_fails(input: Seq<u8>, k: int)
    requires
        frame_at(input) is Block,
        0 < k < frame_at(input)->len,
    ensures
        frame_at(input.take(k)) == (Frame::Failed { kind: ErrorKind::Io, consumed: k as nat }),
{
    let cut = input.take(k);
    if k >= PREFIX_LEN {
        let header_end = PREFIX_LEN + be_i32(input);
        if k >= header_end {
            assert(cut.subrange(PREFIX_LEN as int, header_end) =~= input.subrange(
                PREFIX_LEN as int,
                header_end,
            ));
        }
    }
}

/// An input that is shorter than the frame at its head declares is never read as a frame: it
/// fails with `Io`, whether it ends within the length prefix, within the header that the prefix
/// declares, or within the blob that the header declares. A frame that is read holds as many
/// bytes of blob as its header declares, all of them from the input.
pub proof fn lemma_short_input_fails(input: Seq<u8>)
    ensures
        0 < input.len() < 4 ==> frame_at(input) == (Frame::Failed {
            kind: ErrorKind::Io,
            consumed: input.len(),
        }),
        4 <= input.len() && 0 <= be_i32(input) < 65536 && input.len() < 4 + be_i32(input)
            ==> frame_at(input) == (Frame::Failed { kind: ErrorKind::Io, consumed: input.len() }),
        4 <= input.len() && 0 <= be_i32(input) < 65536 && 4 + be_i32(input) <= input.len() ==> (
        match parse_blob_header(input.subrange(4, 4 + be_i32(input))) {
            Some(header) => 0 <= header.datasize < 33554432 && input.len() < 4 + be_i32(input)
                + header.datasize ==> frame_at(input) == (Frame::Failed {
                kind: ErrorKind::Io,
                consumed: input.len(),
            }),
            None => true,
        }),
        frame_at(input) matches Frame::Block { data, len, .. } ==> len <= input.len() && (
        parse_blob_header(input.subrange(4, 4 + be_i32(input))) matches Some(header)
            && data.len() == header.datasize && len == 4 + be_i32(input) + header.datasize),
{
}

/// The size limits hold at their exact bounds: a length prefix that is negative or at least
/// 65536 gives `InvalidBlobHeader` whatever follows it, a decoded header whose `datasize` is
/// negative or at least 33554432 gives `InvalidBlobData` whatever follows it, and the sizes of
/// a frame that is read are below both limits.
pub proof fn lemma_frame_size_limits(input: Seq<u8>)
    requires
        input.len() >= PREFIX_LEN,
    ensures
        !(0 <= be_i32(input) < 65536) ==> frame_at(input) == (Frame::Failed {
            kind: ErrorKind::InvalidBlobHeader,
            consumed: 4,
        }),
        0 <= be_i32(input) < 65536 && input.len() >= 4 + be_i32(input) ==> (match parse_blob_header(
            input.subrange(4, 4 + be_i32(input)),
        ) {
            Some(header) => !(0 <= header.datasize < 33554432) ==> frame_at(input) == (
            Frame::Failed {
                kind: ErrorKind::InvalidBlobData,
                consumed: (4 + be_i32(input)) as nat,
            }),
            None => true,
        }),
        frame_at(input) matches Frame::Block { data, len, .. } ==> data.len() < 33554432 && len
            < 4 + 65536 + 33554432,
{
}

} // verus!
