//! The protocol-buffer wire layer: field keys and field values at the head of a byte slice.
//!
//! The decoding itself is done by `prost`. Each function here hands one `prost` primitive a
//! slice and gives back the decoded value with the rest of the slice; its contract states the
//! result as a function of the bytes.

use prost::encoding::{DecodeContext, WireType};
use prost::DecodeError;
use vstd::prelude::*;
use vstd::utf8::{decode_utf8, valid_utf8};

verus! {

/// Wire type number of a variable-length integer.
pub const WIRE_VARINT: u8 = 0;

/// Wire type number of a value of eight bytes.
pub const WIRE_SIXTY_FOUR_BIT: u8 = 1;

/// Wire type number of a length-delimited value.
pub const WIRE_LENGTH_DELIMITED: u8 = 2;

/// Wire type number of the start of a group.
pub const WIRE_START_GROUP: u8 = 3;

/// Wire type number of the end of a group.
pub const WIRE_END_GROUP: u8 = 4;

/// Wire type number of a value of four bytes.
pub const WIRE_THIRTY_TWO_BIT: u8 = 5;

/// One more than the index of the first byte below `0x80` at or after `i`, looking no further
/// than the tenth byte.
pub open spec fn varint_end(bytes: Seq<u8>, i: nat) -> Option<nat>
    decreases 10 - i,
{
    if i >= 10 || i >= bytes.len() {
        None
    } else if bytes[i as int] < 0x80 {
        Some(i + 1)
    } else {
        varint_end(bytes, i + 1)
    }
}

/// The little-endian base-128 number written in the low seven bits of the first `n` bytes.
pub open spec fn varint_value(bytes: Seq<u8>, n: nat) -> nat
    decreases n,
{
    if n == 0 {
        0
    } else {
        (bytes[0] % 128) as nat + 128 * varint_value(bytes.skip(1), (n - 1) as nat)
    }
}

/// The variable-length integer at the head of `bytes` and the number of bytes it takes: `None`
/// where none of the first ten bytes ends it, or where it does not fit in 64 bits.
pub open spec fn varint(bytes: Seq<u8>) -> Option<(u64, nat)> {
    match varint_end(bytes, 0) {
        Some(n) => if n == 10 && bytes[9] >= 2 {
            None
        } else {
            Some((varint_value(bytes, n) as u64, n))
        },
        None => None,
    }
}

/// A field key: the field's number, its wire type, and the number of bytes the key takes.
pub struct WireKey {
    pub tag: u32,
    pub wire_type: u8,
    pub len: nat,
}

/// The field key at the head of `bytes`: a variable-length integer below 2^32 whose low three
/// bits are a wire type and whose remaining bits are a field number of at least 1.
pub open spec fn wire_key(bytes: Seq<u8>) -> Option<WireKey> {
    match varint(bytes) {
        Some((key, n)) => if key <= u32::MAX && key % 8 <= WIRE_THIRTY_TWO_BIT && key / 8 >= 1 {
            Some(WireKey { tag: (key / 8) as u32, wire_type: (key % 8) as u8, len: n })
        } else {
            None
        },
        None => None,
    }
}

/// A decoded field value together with the number of bytes it took.
pub struct Taken<T> {
    pub value: T,
    pub len: nat,
}

/// A 32-bit integer field: a variable-length integer, truncated to 32 bits.
pub open spec fn int32_field(wire_type: u8, bytes: Seq<u8>) -> Option<Taken<i32>> {
    match varint(bytes) {
        Some((v, n)) => if wire_type == WIRE_VARINT {
            Some(Taken { value: v as i32, len: n })
        } else {
            None
        },
        None => None,
    }
}

/// A bytes field: a length-delimited value, which is a variable-length count and that many
/// bytes.
pub open spec fn bytes_field(wire_type: u8, bytes: Seq<u8>) -> Option<Taken<Seq<u8>>> {
    match varint(bytes) {
        Some((count, n)) => if wire_type == WIRE_LENGTH_DELIMITED && n + count <= bytes.len() {
            Some(Taken { value: bytes.subrange(n as int, n + count), len: (n + count) as nat })
        } else {
            None
        },
        None => None,
    }
}

/// A string field: a bytes field whose bytes are valid UTF-8.
pub open spec fn string_field(wire_type: u8, bytes: Seq<u8>) -> Option<Taken<Seq<char>>> {
    match bytes_field(wire_type, bytes) {
        Some(taken) => if valid_utf8(taken.value) {
            Some(Taken { value: decode_utf8(taken.value), len: taken.len })
        } else {
            None
        },
        None => None,
    }
}

/// How deep groups may nest in a field that is passed over.
pub const RECURSION_LIMIT: u32 = 100;

/// The number of bytes that the value of a field takes which is passed over unread, by its wire
/// type: a variable-length integer, eight bytes, a counted run of bytes, a group up to its
/// end, or four bytes. `None` where the value is cut short or malformed, where the wire type is
/// none of these, and where `depth` is zero.
pub open spec fn skipped(wire_type: u8, tag: u32, bytes: Seq<u8>, depth: nat) -> Option<nat>
    decreases bytes.len(), 1nat,
{
    if depth == 0 {
        None
    } else if wire_type == WIRE_VARINT {
        match varint(bytes) {
            Some((_, n)) => Some(n),
            None => None,
        }
    } else if wire_type == WIRE_SIXTY_FOUR_BIT {
        if bytes.len() >= 8 {
            Some(8)
        } else {
            None
        }
    } else if wire_type == WIRE_LENGTH_DELIMITED {
        match varint(bytes) {
            Some((count, n)) => if n + count <= bytes.len() {
                Some((n + count) as nat)
            } else {
                None
            },
            None => None,
        }
    } else if wire_type == WIRE_START_GROUP {
        group_end(tag, bytes, depth)
    } else if wire_type == WIRE_THIRTY_TWO_BIT {
        if bytes.len() >= 4 {
            Some(4)
        } else {
            None
        }
    } else {
        None
    }
}

/// The number of bytes up to and including the key that ends the group with the number `tag`:
/// the fields of the group, each passed over one level deeper, and then a key with the wire
/// type of a group's end and the group's number.
pub open spec fn group_end(tag: u32, bytes: Seq<u8>, depth: nat) -> Option<nat>
    decreases bytes.len(), 0nat,
{
    match wire_key(bytes) {
        None => None,
        Some(key) => {
            proof {
                lemma_wire_key_len(bytes);
            }
            let value = bytes.skip(key.len as int);
            if key.wire_type == WIRE_END_GROUP {
                if key.tag == tag {
                    Some(key.len)
                } else {
                    None
                }
            } else {
                match skipped(key.wire_type, key.tag, value, (depth - 1) as nat) {
                    Some(n) => if n <= value.len() {
                        match group_end(tag, value.skip(n as int), depth) {
                            Some(m) => Some(key.len + n + m),
                            None => None,
                        }
                    } else {
                        None
                    },
                    None => None,
                }
            }
        },
    }
}

/// `prost::encoding::decode_key`: reads the field key at the head of `buf`. It succeeds exactly
/// where [`wire_key`] is defined, and returns the key with the bytes after it.
#[verifier::external_body]
pub(crate) fn decode_key<'a>(buf: &'a [u8]) -> (r: Result<(u32, u8, &'a [u8]), DecodeError>)
    ensures
        match r {
            Ok((tag, wire_type, rest)) => wire_key(buf@) matches Some(key) && key.tag == tag
                && key.wire_type == wire_type && rest@ == buf@.skip(key.len as int),
            Err(_) => wire_key(buf@) is None,
        },
{
    let mut rest = buf;
    let (tag, wire_type) = prost::encoding::decode_key(&mut rest)?;
    Ok((tag, wire_type as u8, rest))
}

/// `prost::encoding::skip_field` with a fresh decoding context: passes over the value of a field
/// that the message does not know. It succeeds exactly where [`skipped`] is defined at the
/// full depth, and returns the bytes after the value.
#[verifier::external_body]
pub(crate) fn skip_field<'a>(wire_type: u8, tag: u32, buf: &'a [u8]) -> (r: Result<
    &'a [u8],
    DecodeError,
>)
    ensures
        match r {
            Ok(rest) => skipped(wire_type, tag, buf@, RECURSION_LIMIT as nat) matches Some(n)
                && rest@ == buf@.skip(n as int),
            Err(_) => skipped(wire_type, tag, buf@, RECURSION_LIMIT as nat) is None,
        },
{
    let mut rest = buf;
    let wire_type = WireType::try_from(u64::from(wire_type))?;
    prost::encoding::skip_field(wire_type, tag, &mut rest, DecodeContext::default())?;
    Ok(rest)
}

/// `prost::encoding::int32::merge`: reads a 32-bit integer field. It succeeds exactly where
/// [`int32_field`] is defined, and returns the value with the bytes after it.
#[verifier::external_body]
pub(crate) fn merge_int32<'a>(wire_type: u8, buf: &'a [u8]) -> (r: Result<
    (i32, &'a [u8]),
    DecodeError,
>)
    ensures
        match r {
            Ok((value, rest)) => int32_field(wire_type, buf@) matches Some(taken) && taken.value
                == value && rest@ == buf@.skip(taken.len as int),
            Err(_) => int32_field(wire_type, buf@) is None,
        },
{
    let mut rest = buf;
    let mut value = 0i32;
    let wire_type = WireType::try_from(u64::from(wire_type))?;
    prost::encoding::int32::merge(wire_type, &mut value, &mut rest, DecodeContext::default())?;
    Ok((value, rest))
}

/// `prost::encoding::bytes::merge` into an empty vector: reads a bytes field. It succeeds
/// exactly where [`bytes_field`] is defined, and returns the bytes with what follows them.
#[verifier::external_body]
pub(crate) fn merge_bytes<'a>(wire_type: u8, buf: &'a [u8]) -> (r: Result<
    (Vec<u8>, &'a [u8]),
    DecodeError,
>)
    ensures
        match r {
            Ok((value, rest)) => bytes_field(wire_type, buf@) matches Some(taken) && taken.value
                == value@ && rest@ == buf@.skip(taken.len as int),
            Err(_) => bytes_field(wire_type, buf@) is None,
        },
{
    let mut rest = buf;
    let mut value: Vec<u8> = Vec::new();
    let wire_type = WireType::try_from(u64::from(wire_type))?;
    prost::encoding::bytes::merge(wire_type, &mut value, &mut rest, DecodeContext::default())?;
    Ok((value, rest))
}

/// `prost::encoding::string::merge` into an empty string: reads a string field. It succeeds
/// exactly where [`string_field`] is defined, and returns the text with the bytes after it.
#[verifier::external_body]
pub(crate) fn merge_string<'a>(wire_type: u8, buf: &'a [u8]) -> (r: Result<
    (String, &'a [u8]),
    DecodeError,
>)
    ensures
        match r {
            Ok((value, rest)) => string_field(wire_type, buf@) matches Some(taken) && taken.value
                == value@ && rest@ == buf@.skip(taken.len as int),
            Err(_) => string_field(wire_type, buf@) is None,
        },
{
    let mut rest = buf;
    let mut value = String::new();
    let wire_type = WireType::try_from(u64::from(wire_type))?;
    prost::encoding::string::merge(wire_type, &mut value, &mut rest, DecodeContext::default())?;
    Ok((value, rest))
}

/// Every field key takes at least one byte and no more than the bytes hold.
pub proof fn lemma_wire_key_len(bytes: Seq<u8>)
    requires
        wire_key(bytes) is Some,
    ensures
        1 <= wire_key(bytes)->0.len <= bytes.len(),
{
    lemma_varint_end_bounds(bytes, 0);
}

/// A bytes field and a string field take no more than the bytes hold.
pub proof fn lemma_bytes_field_len(wire_type: u8, bytes: Seq<u8>)
    ensures
        bytes_field(wire_type, bytes) matches Some(taken) ==> 1 <= taken.len <= bytes.len(),
        string_field(wire_type, bytes) matches Some(taken) ==> 1 <= taken.len <= bytes.len(),
{
    if varint_end(bytes, 0) is Some {
        lemma_varint_end_bounds(bytes, 0);
    }
}

/// A value that is passed over takes no more than the bytes hold.
pub proof fn lemma_skipped_len(wire_type: u8, tag: u32, bytes: Seq<u8>, depth: nat)
    ensures
        skipped(wire_type, tag, bytes, depth) matches Some(n) ==> n <= bytes.len(),
    decreases bytes.len(), 1nat,
{
    if varint_end(bytes, 0) is Some {
        lemma_varint_end_bounds(bytes, 0);
    }
    if depth > 0 && wire_type == WIRE_START_GROUP {
        lemma_group_end_len(tag, bytes, depth);
    }
}

/// A group ends within the bytes.
pub proof fn lemma_group_end_len(tag: u32, bytes: Seq<u8>, depth: nat)
    ensures
        group_end(tag, bytes, depth) matches Some(n) ==> n <= bytes.len(),
    decreases bytes.len(), 0nat,
{
    if let Some(key) = wire_key(bytes) {
        lemma_wire_key_len(bytes);
        let value = bytes.skip(key.len as int);
        if key.wire_type != WIRE_END_GROUP {
            lemma_skipped_len(key.wire_type, key.tag, value, (depth - 1) as nat);
            if let Some(n) = skipped(key.wire_type, key.tag, value, (depth - 1) as nat) {
                lemma_group_end_len(tag, value.skip(n as int), depth);
            }
        }
    }
}

/// A 32-bit integer field takes no more than the bytes hold.
pub proof fn lemma_int32_field_len(wire_type: u8, bytes: Seq<u8>)
    ensures
        int32_field(wire_type, bytes) matches Some(taken) ==> 1 <= taken.len <= bytes.len(),
{
    if varint_end(bytes, 0) is Some {
        lemma_varint_end_bounds(bytes, 0);
    }
}

/// Where a variable-length integer ends, it ends after `i` and within the bytes.
pub proof fn lemma_varint_end_bounds(bytes: Seq<u8>, i: nat)
    requires
        varint_end(bytes, i) is Some,
    ensures
        i < varint_end(bytes, i)->0 <= bytes.len(),
        varint_end(bytes, i)->0 <= 10,
    decreases 10 - i,
{
    if i < 10 && i < bytes.len() && bytes[i as int] >= 0x80 {
        lemma_varint_end_bounds(bytes, i + 1);
    }
}

} // verus!
