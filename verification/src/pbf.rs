//! The messages of the format: the two framing messages, decoded here from their bytes, and the
//! parts of a primitive block that the readers of this library work on.

use crate::error::Error;
use crate::wire::{
    bytes_field, decode_key, int32_field, lemma_bytes_field_len, lemma_int32_field_len,
    lemma_skipped_len, lemma_wire_key_len, merge_bytes, merge_int32, merge_string, skip_field,
    skipped, string_field, wire_key, WireKey, RECURSION_LIMIT,
};
use vstd::prelude::*;

verus! {

/// Field number of the type string of a blob header.
pub const HEADER_TYPE: u32 = 1;

/// Field number of the index data of a blob header.
pub const HEADER_INDEXDATA: u32 = 2;

/// Field number of the payload size of a blob header.
pub const HEADER_DATASIZE: u32 = 3;

/// Field number of the uncompressed payload of a blob.
pub const BLOB_RAW: u32 = 1;

/// Field number of the uncompressed size of a blob.
pub const BLOB_RAW_SIZE: u32 = 2;

/// Field number of the zlib-compressed payload of a blob.
pub const BLOB_ZLIB_DATA: u32 = 3;

/// Field number of the LZMA-compressed payload of a blob.
pub const BLOB_LZMA_DATA: u32 = 4;

/// Field number of the obsolete bzip2-compressed payload of a blob.
pub const BLOB_OBSOLETE_BZIP2_DATA: u32 = 5;

/// Field number of the LZ4-compressed payload of a blob.
pub const BLOB_LZ4_DATA: u32 = 6;

/// Field number of the Zstandard-compressed payload of a blob.
pub const BLOB_ZSTD_DATA: u32 = 7;

/// The header of a frame: what kind of block follows and how many bytes its blob takes.
#[derive(Debug)]
pub struct BlobHeader {
    /// The type string of the block.
    pub block_type: String,
    /// Opaque index data, if any.
    pub indexdata: Option<Vec<u8>>,
    /// The size of the blob that follows the header.
    pub datasize: i32,
}

/// A [`BlobHeader`] as a mathematical value.
pub struct BlobHeaderView {
    pub block_type: Seq<char>,
    pub indexdata: Option<Seq<u8>>,
    pub datasize: i32,
}

impl View for BlobHeader {
    type V = BlobHeaderView;

    open spec fn view(&self) -> BlobHeaderView {
        BlobHeaderView {
            block_type: self.block_type@,
            indexdata: match self.indexdata {
                Some(bytes) => Some(bytes@),
                None => None,
            },
            datasize: self.datasize,
        }
    }
}

/// The payload of a blob, by its encoding.
#[derive(Debug)]
pub enum BlobData {
    Raw(Vec<u8>),
    ZlibData(Vec<u8>),
    LzmaData(Vec<u8>),
    ObsoleteBzip2Data(Vec<u8>),
    Lz4Data(Vec<u8>),
    ZstdData(Vec<u8>),
}

/// A [`BlobData`] as a mathematical value.
pub enum BlobDataView {
    Raw(Seq<u8>),
    ZlibData(Seq<u8>),
    LzmaData(Seq<u8>),
    ObsoleteBzip2Data(Seq<u8>),
    Lz4Data(Seq<u8>),
    ZstdData(Seq<u8>),
}

impl View for BlobData {
    type V = BlobDataView;

    open spec fn view(&self) -> BlobDataView {
        match self {
            BlobData::Raw(bytes) => BlobDataView::Raw(bytes@),
            BlobData::ZlibData(bytes) => BlobDataView::ZlibData(bytes@),
            BlobData::LzmaData(bytes) => BlobDataView::LzmaData(bytes@),
            BlobData::ObsoleteBzip2Data(bytes) => BlobDataView::ObsoleteBzip2Data(bytes@),
            BlobData::Lz4Data(bytes) => BlobDataView::Lz4Data(bytes@),
            BlobData::ZstdData(bytes) => BlobDataView::ZstdData(bytes@),
        }
    }
}

/// The wrapper around the bytes of one block.
#[derive(Debug)]
pub struct Blob {
    /// The size of the payload once decompressed.
    pub raw_size: Option<i32>,
    /// The payload.
    pub data: Option<BlobData>,
}

/// A [`Blob`] as a mathematical value.
pub struct BlobView {
    pub raw_size: Option<i32>,
    pub data: Option<BlobDataView>,
}

impl View for Blob {
    type V = BlobView;

    open spec fn view(&self) -> BlobView {
        BlobView {
            raw_size: self.raw_size,
            data: match self.data {
                Some(data) => Some(data@),
                None => None,
            },
        }
    }
}

/// The strings of a primitive block, referenced elsewhere by their index.
#[derive(Debug)]
pub struct StringTable {
    pub s: Vec<Vec<u8>>,
}

impl StringTable {
    /// The number of strings in the table.
    pub open spec fn len(&self) -> nat {
        self.s@.len()
    }

    /// The bytes of the string with the index `i`.
    pub open spec fn entry(&self, i: int) -> Seq<u8> {
        self.s@[i]@
    }
}

impl Default for StringTable {
    fn default() -> (r: StringTable)
        ensures
            r.len() == 0,
    {
        StringTable { s: Vec::new() }
    }
}

/// Optional metadata of a node.
#[derive(Debug, Clone, Copy, PartialEq, Eq)]
pub struct Info {
    pub version: Option<i32>,
    pub timestamp: Option<i64>,
    pub changeset: Option<i64>,
    pub uid: Option<i32>,
    pub user_sid: Option<u32>,
    pub visible: Option<bool>,
}

/// Metadata of densely packed nodes: one array per field, each as long as it was written.
/// All but `version` and `visible` are delta coded.
#[derive(Debug)]
pub struct DenseInfo {
    pub version: Vec<i32>,
    pub timestamp: Vec<i64>,
    pub changeset: Vec<i64>,
    pub uid: Vec<i32>,
    pub user_sid: Vec<i32>,
    pub visible: Vec<bool>,
}

impl Default for DenseInfo {
    fn default() -> (r: DenseInfo)
        ensures
            r.version@.len() == 0,
            r.timestamp@.len() == 0,
            r.changeset@.len() == 0,
            r.uid@.len() == 0,
            r.user_sid@.len() == 0,
            r.visible@.len() == 0,
    {
        DenseInfo {
            version: Vec::new(),
            timestamp: Vec::new(),
            changeset: Vec::new(),
            uid: Vec::new(),
            user_sid: Vec::new(),
            visible: Vec::new(),
        }
    }
}

/// Densely packed nodes: delta coded ids and coordinates in parallel arrays, and the tags of
/// all nodes in one array of string indices, the tags of each node ended by a zero.
#[derive(Debug)]
pub struct DenseNodes {
    pub id: Vec<i64>,
    pub denseinfo: Option<DenseInfo>,
    pub lat: Vec<i64>,
    pub lon: Vec<i64>,
    pub keys_vals: Vec<i32>,
}

impl Default for DenseNodes {
    fn default() -> (r: DenseNodes)
        ensures
            r.id@.len() == 0,
            r.denseinfo is None,
            r.lat@.len() == 0,
            r.lon@.len() == 0,
            r.keys_vals@.len() == 0,
    {
        DenseNodes {
            id: Vec::new(),
            denseinfo: None,
            lat: Vec::new(),
            lon: Vec::new(),
            keys_vals: Vec::new(),
        }
    }
}

/// The header in which no field was seen yet.
pub open spec fn empty_blob_header() -> BlobHeaderView {
    BlobHeaderView { block_type: Seq::empty(), indexdata: None, datasize: 0 }
}

/// The blob in which no field was seen yet.
pub open spec fn empty_blob() -> BlobView {
    BlobView { raw_size: None, data: None }
}

/// The value of an unknown field is passed over; the message stays as it is.
pub open spec fn unknown_field<M>(message: M, key: WireKey, bytes: Seq<u8>) -> Option<(M, nat)> {
    match skipped(key.wire_type, key.tag, bytes, RECURSION_LIMIT as nat) {
        Some(n) => Some((message, n)),
        None => None,
    }
}

/// The header after the field with the key `key`, whose value stands at the head of `bytes`,
/// and the number of bytes of that value. A later value of a field replaces an earlier one.
pub open spec fn blob_header_field(header: BlobHeaderView, key: WireKey, bytes: Seq<u8>) -> Option<
    (BlobHeaderView, nat),
> {
    if key.tag == HEADER_TYPE {
        match string_field(key.wire_type, bytes) {
            Some(taken) => Some(
                (
                    BlobHeaderView {
                        block_type: taken.value,
                        indexdata: header.indexdata,
                        datasize: header.datasize,
                    },
                    taken.len,
                ),
            ),
            None => None,
        }
    } else if key.tag == HEADER_INDEXDATA {
        match bytes_field(key.wire_type, bytes) {
            Some(taken) => Some(
                (
                    BlobHeaderView {
                        block_type: header.block_type,
                        indexdata: Some(taken.value),
                        datasize: header.datasize,
                    },
                    taken.len,
                ),
            ),
            None => None,
        }
    } else if key.tag == HEADER_DATASIZE {
        match int32_field(key.wire_type, bytes) {
            Some(taken) => Some(
                (
                    BlobHeaderView {
                        block_type: header.block_type,
                        indexdata: header.indexdata,
                        datasize: taken.value,
                    },
                    taken.len,
                ),
            ),
            None => None,
        }
    } else {
        unknown_field(header, key, bytes)
    }
}

/// The value of a field of a blob header takes no more than the bytes hold.
pub proof fn lemma_blob_header_field_len(header: BlobHeaderView, key: WireKey, bytes: Seq<u8>)
    ensures
        blob_header_field(header, key, bytes) matches Some((_, n)) ==> n <= bytes.len(),
{
    lemma_bytes_field_len(key.wire_type, bytes);
    lemma_int32_field_len(key.wire_type, bytes);
    lemma_skipped_len(key.wire_type, key.tag, bytes, RECURSION_LIMIT as nat);
}

/// The header `header` after all the fields written in `bytes`, or `None` where the bytes are
/// not a sequence of well-formed fields.
pub open spec fn merge_blob_header(header: BlobHeaderView, bytes: Seq<u8>) -> Option<
    BlobHeaderView,
>
    decreases bytes.len(),
{
    if bytes.len() == 0 {
        Some(header)
    } else {
        match wire_key(bytes) {
            Some(key) => {
                let value = bytes.skip(key.len as int);
                match blob_header_field(header, key, value) {
                    Some((next, n)) => {
                        proof {
                            lemma_wire_key_len(bytes);
                            lemma_blob_header_field_len(header, key, value);
                        }
                        merge_blob_header(next, value.skip(n as int))
                    },
                    None => None,
                }
            },
            None => None,
        }
    }
}

/// The blob header that `bytes` encode, or `None` where they are malformed.
pub open spec fn parse_blob_header(bytes: Seq<u8>) -> Option<BlobHeaderView> {
    merge_blob_header(empty_blob_header(), bytes)
}

/// Whether `tag` is the field number of one of the payload encodings of a blob.
pub open spec fn is_blob_data(tag: u32) -> bool {
    tag == BLOB_RAW || tag == BLOB_ZLIB_DATA || tag == BLOB_LZMA_DATA || tag
        == BLOB_OBSOLETE_BZIP2_DATA || tag == BLOB_LZ4_DATA || tag == BLOB_ZSTD_DATA
}

/// The payload with the field number `tag` and the bytes `bytes`.
pub open spec fn blob_data(tag: u32, bytes: Seq<u8>) -> BlobDataView {
    if tag == BLOB_RAW {
        BlobDataView::Raw(bytes)
    } else if tag == BLOB_ZLIB_DATA {
        BlobDataView::ZlibData(bytes)
    } else if tag == BLOB_LZMA_DATA {
        BlobDataView::LzmaData(bytes)
    } else if tag == BLOB_OBSOLETE_BZIP2_DATA {
        BlobDataView::ObsoleteBzip2Data(bytes)
    } else if tag == BLOB_LZ4_DATA {
        BlobDataView::Lz4Data(bytes)
    } else {
        BlobDataView::ZstdData(bytes)
    }
}

/// The blob after the field with the key `key`, whose value stands at the head of `bytes`, and
/// the number of bytes of that value. The payload encodings exclude each other: the last one
/// written is the payload.
pub open spec fn blob_field(blob: BlobView, key: WireKey, bytes: Seq<u8>) -> Option<
    (BlobView, nat),
> {
    if key.tag == BLOB_RAW_SIZE {
        match int32_field(key.wire_type, bytes) {
            Some(taken) => Some(
                (BlobView { raw_size: Some(taken.value), data: blob.data }, taken.len),
            ),
            None => None,
        }
    } else if is_blob_data(key.tag) {
        match bytes_field(key.wire_type, bytes) {
            Some(taken) => Some(
                (
                    BlobView {
                        raw_size: blob.raw_size,
                        data: Some(blob_data(key.tag, taken.value)),
                    },
                    taken.len,
                ),
            ),
            None => None,
        }
    } else {
        unknown_field(blob, key, bytes)
    }
}

/// The value of a field of a blob takes no more than the bytes hold.
pub proof fn lemma_blob_field_len(blob: BlobView, key: WireKey, bytes: Seq<u8>)
    ensures
        blob_field(blob, key, bytes) matches Some((_, n)) ==> n <= bytes.len(),
{
    lemma_bytes_field_len(key.wire_type, bytes);
    lemma_int32_field_len(key.wire_type, bytes);
    lemma_skipped_len(key.wire_type, key.tag, bytes, RECURSION_LIMIT as nat);
}

/// The blob `blob` after all the fields written in `bytes`, or `None` where the bytes are not a
/// sequence of well-formed fields.
pub open spec fn merge_blob(blob: BlobView, bytes: Seq<u8>) -> Option<BlobView>
    decreases bytes.len(),
{
    if bytes.len() == 0 {
        Some(blob)
    } else {
        match wire_key(bytes) {
            Some(key) => {
                let value = bytes.skip(key.len as int);
                match blob_field(blob, key, value) {
                    Some((next, n)) => {
                        proof {
                            lemma_wire_key_len(bytes);
                            lemma_blob_field_len(blob, key, value);
                        }
                        merge_blob(next, value.skip(n as int))
                    },
                    None => None,
                }
            },
            None => None,
        }
    }
}

/// The blob that `bytes` encode, or `None` where they are malformed.
pub open spec fn parse_blob(bytes: Seq<u8>) -> Option<BlobView> {
    merge_blob(empty_blob(), bytes)
}

impl BlobHeader {
    /// Decodes a blob header from the bytes of its message: succeeds exactly where
    /// [`parse_blob_header`] is defined, with that header.
    pub fn decode(bytes: &[u8]) -> (r: Result<BlobHeader, Error>)
        ensures
            match r {
                Ok(header) => parse_blob_header(bytes@) == Some(header@),
                Err(e) => parse_blob_header(bytes@) is None && e is PbfParseError,
            },
    {
        let mut header = BlobHeader { block_type: String::new(), indexdata: None, datasize: 0 };
        let mut rest = bytes;
        while rest.len() > 0
            invariant
                merge_blob_header(header@, rest@) == parse_blob_header(bytes@),
            decreases rest@.len(),
        {
            let (tag, wire_type, value) = match decode_key(rest) {
                Ok(key) => key,
                Err(e) => {
                    return Err(Error::PbfParseError(e));
                },
            };
            let ghost before = header@;
            proof {
                lemma_wire_key_len(rest@);
                lemma_blob_header_field_len(before, wire_key(rest@)->0, value@);
            }
            let merged = if tag == HEADER_TYPE {
                match merge_string(wire_type, value) {
                    Ok((block_type, after)) => {
                        header.block_type = block_type;
                        Ok(after)
                    },
                    Err(e) => Err(e),
                }
            } else if tag == HEADER_INDEXDATA {
                match merge_bytes(wire_type, value) {
                    Ok((indexdata, after)) => {
                        header.indexdata = Some(indexdata);
                        Ok(after)
                    },
                    Err(e) => Err(e),
                }
            } else if tag == HEADER_DATASIZE {
                match merge_int32(wire_type, value) {
                    Ok((datasize, after)) => {
                        header.datasize = datasize;
                        Ok(after)
                    },
                    Err(e) => Err(e),
                }
            } else {
                skip_field(wire_type, tag, value)
            };
            match merged {
                Ok(after) => {
                    rest = after;
                },
                Err(e) => {
                    return Err(Error::PbfParseError(e));
                },
            }
        }
        Ok(header)
    }
}

impl BlobData {
    /// The payload with the field number `tag` and the bytes `bytes`.
    fn with_tag(tag: u32, bytes: Vec<u8>) -> (r: BlobData)
        requires
            is_blob_data(tag),
        ensures
            r@ == blob_data(tag, bytes@),
    {
        if tag == BLOB_RAW {
            BlobData::Raw(bytes)
        } else if tag == BLOB_ZLIB_DATA {
            BlobData::ZlibData(bytes)
        } else if tag == BLOB_LZMA_DATA {
            BlobData::LzmaData(bytes)
        } else if tag == BLOB_OBSOLETE_BZIP2_DATA {
            BlobData::ObsoleteBzip2Data(bytes)
        } else if tag == BLOB_LZ4_DATA {
            BlobData::Lz4Data(bytes)
        } else {
            BlobData::ZstdData(bytes)
        }
    }
}

impl Blob {
    /// Decodes a blob from the bytes of its message: succeeds exactly where [`parse_blob`] is
    /// defined, with that blob.
    pub fn decode(bytes: &[u8]) -> (r: Result<Blob, Error>)
        ensures
            match r {
                Ok(blob) => parse_blob(bytes@) == Some(blob@),
                Err(e) => parse_blob(bytes@) is None && e is PbfParseError,
            },
    {
        let mut blob = Blob { raw_size: None, data: None };
        let mut rest = bytes;
        while rest.len() > 0
            invariant
                merge_blob(blob@, rest@) == parse_blob(bytes@),
            decreases rest@.len(),
        {
            let (tag, wire_type, value) = match decode_key(rest) {
                Ok(key) => key,
                Err(e) => {
                    return Err(Error::PbfParseError(e));
                },
            };
            let ghost before = blob@;
            proof {
                lemma_wire_key_len(rest@);
                lemma_blob_field_len(before, wire_key(rest@)->0, value@);
            }
            let merged = if tag == BLOB_RAW_SIZE {
                match merge_int32(wire_type, value) {
                    Ok((raw_size, after)) => {
                        blob.raw_size = Some(raw_size);
                        Ok(after)
                    },
                    Err(e) => Err(e),
                }
            } else if tag == BLOB_RAW || tag == BLOB_ZLIB_DATA || tag == BLOB_LZMA_DATA || tag
                == BLOB_OBSOLETE_BZIP2_DATA || tag == BLOB_LZ4_DATA || tag == BLOB_ZSTD_DATA {
                match merge_bytes(wire_type, value) {
                    Ok((data, after)) => {
                        blob.data = Some(BlobData::with_tag(tag, data));
                        Ok(after)
                    },
                    Err(e) => Err(e),
                }
            } else {
                skip_field(wire_type, tag, value)
            };
            match merged {
                Ok(after) => {
                    rest = after;
                },
                Err(e) => {
                    return Err(Error::PbfParseError(e));
                },
            }
        }
        Ok(blob)
    }
}

} // verus!
