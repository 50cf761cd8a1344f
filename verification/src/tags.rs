//! Readers for tags: pairs of a key and a value, each written as an index into the string
//! table of the block.

use crate::error::Error;
use crate::pbf::StringTable;
use core::str::Utf8Error;
use vstd::prelude::*;
use vstd::string::StringSliceAdditionalSpecFns;
use vstd::utf8::{decode_utf8, encode_utf8_decode_utf8, valid_utf8};

verus! {

/// `core::str::from_utf8` succeeds exactly on valid UTF-8, and the text it returns then has
/// the given bytes as its encoding.
pub assume_specification<'a>[ core::str::from_utf8 ](v: &'a [u8]) -> (r: Result<
    &'a str,
    Utf8Error,
>)
    ensures
        r is Ok <==> valid_utf8(v@),
        r matches Ok(text) ==> text.spec_bytes() == v@,
;

/// Text of the error for a string index below zero, made with `format!`.
#[verifier::external_body]
fn invalid_index_message(index: i32) -> String {
    format!("string table index {} is invalid", index)
}

/// Text of the error for a string index beyond the table, made with `format!`.
#[verifier::external_body]
fn out_of_bounds_message(index: usize, len: usize) -> String {
    format!("string table index {} is out of bounds ({})", index, len)
}

/// Text of the error for a string that is not valid UTF-8, made with `format!`.
#[verifier::external_body]
fn invalid_text_message(index: usize) -> String {
    format!("string at index {} is not valid UTF-8", index)
}

/// The text of `bytes`, if they are valid UTF-8.
pub open spec fn text_of(bytes: Seq<u8>) -> Option<Seq<char>> {
    if valid_utf8(bytes) {
        Some(decode_utf8(bytes))
    } else {
        None
    }
}

/// The string that a tag index refers to: the text of the table entry with that index. There
/// is none where the index is negative or not below the length of the table, or where the
/// entry is not valid UTF-8.
pub open spec fn resolve(table: &StringTable, index: int) -> Option<Seq<char>> {
    if 0 <= index < table.len() {
        text_of(table.entry(index))
    } else {
        None
    }
}

/// Whether `r` is the outcome of looking up `expected`: that text, or a logic error where
/// there is none.
pub open spec fn is_resolved(r: Result<&str, Error>, expected: Option<Seq<char>>) -> bool {
    match expected {
        Some(text) => r matches Ok(s) && s@ == text,
        None => r matches Err(e) && e is LogicError,
    }
}

/// Whether `r` is the outcome of reading `bytes` as text: the text, or an error where the
/// bytes are not valid UTF-8.
pub open spec fn is_text(r: Result<&str, Utf8Error>, bytes: Seq<u8>) -> bool {
    match text_of(bytes) {
        Some(text) => r matches Ok(s) && s@ == text,
        None => r is Err,
    }
}

/// Reads `bytes` as text.
fn text<'a>(bytes: &'a [u8]) -> (r: Result<&'a str, Utf8Error>)
    ensures
        is_text(r, bytes@),
{
    let r = core::str::from_utf8(bytes);
    proof {
        if let Ok(s) = r {
            encode_utf8_decode_utf8(s@);
        }
    }
    r
}

/// Looks up the string with the index `index`: the text of that entry of the table, or a
/// logic error where the index is negative or out of bounds or the entry is not valid UTF-8.
pub fn decode_string<'a>(string_table: &'a StringTable, index: i32) -> (r: Result<&'a str, Error>)
    ensures
        is_resolved(r, resolve(string_table, index as int)),
{
    if index < 0 {
        return Err(Error::LogicError(invalid_index_message(index)));
    }
    let i = index as usize;
    if i >= string_table.s.len() {
        return Err(Error::LogicError(out_of_bounds_message(i, string_table.s.len())));
    }
    match text(string_table.s[i].as_slice()) {
        Ok(s) => Ok(s),
        Err(_) => Err(Error::LogicError(invalid_text_message(i))),
    }
}

/// Utility for reading the tags of a dense node, from the interleaved key and value indices of
/// that node.
pub struct DenseTagReader<'a> {
    string_table: &'a StringTable,
    indices: &'a [i32],
}

impl<'a> DenseTagReader<'a> {
    /// The string table that the indices refer to.
    pub closed spec fn string_table(&self) -> &StringTable {
        self.string_table
    }

    /// The indices not read yet.
    pub closed spec fn remaining(&self) -> Seq<i32> {
        self.indices@
    }

    /// Constructs a reader of the tags written in `key_value_indices`.
    pub fn new(string_table: &'a StringTable, key_value_indices: &'a [i32]) -> (r: Self)
        ensures
            r.string_table() == string_table,
            r.remaining() == key_value_indices@,
    {
        DenseTagReader { string_table, indices: key_value_indices }
    }

    /// Yields the next tag: the strings that the next two indices refer to, each looked up
    /// on its own. Returns `None`, and changes nothing, where fewer than two indices are left.
    pub fn next(&mut self) -> (r: Option<(Result<&'a str, Error>, Result<&'a str, Error>)>)
        ensures
            final(self).string_table() == old(self).string_table(),
            match r {
                Some((key, value)) => {
                    &&& old(self).remaining().len() >= 2
                    &&& is_resolved(
                        key,
                        resolve(old(self).string_table(), old(self).remaining()[0] as int),
                    )
                    &&& is_resolved(
                        value,
                        resolve(old(self).string_table(), old(self).remaining()[1] as int),
                    )
                    &&& final(self).remaining() == old(self).remaining().skip(2)
                },
                None => {
                    &&& old(self).remaining().len() < 2
                    &&& final(self).remaining() == old(self).remaining()
                },
            },
    {
        if self.indices.len() >= 2 {
            let key = decode_string(self.string_table, self.indices[0]);
            let value = decode_string(self.string_table, self.indices[1]);
            self.indices = vstd::slice::slice_subrange(self.indices, 2, self.indices.len());
            Some((key, value))
        } else {
            None
        }
    }
}

/// Utility for reading tags written as two parallel arrays, one of key indices and one of
/// value indices.
pub struct TagReader<'a> {
    string_table: &'a StringTable,
    key_indices: &'a [u32],
    value_indices: &'a [u32],
    idx: usize,
}

/// Whether every index in `indices` refers to a string of `table`.
pub open spec fn in_table(table: &StringTable, indices: Seq<u32>) -> bool {
    forall|i: int| 0 <= i < indices.len() ==> (#[trigger] indices[i]) < table.len()
}

impl<'a> TagReader<'a> {
    /// The string table that the indices refer to.
    pub closed spec fn string_table(&self) -> &StringTable {
        self.string_table
    }

    /// The key indices, read or not.
    pub closed spec fn key_indices(&self) -> Seq<u32> {
        self.key_indices@
    }

    /// The value indices, read or not.
    pub closed spec fn value_indices(&self) -> Seq<u32> {
        self.value_indices@
    }

    /// The number of tags read so far.
    pub closed spec fn position(&self) -> nat {
        self.idx as nat
    }

    #[verifier::type_invariant]
    spec fn well_formed(&self) -> bool {
        &&& self.key_indices@.len() == self.value_indices@.len()
        &&& self.idx <= self.key_indices@.len()
        &&& in_table(self.string_table, self.key_indices@)
        &&& in_table(self.string_table, self.value_indices@)
    }

    /// Constructs a new `TagReader` from key and value index slices, and a corresponding string
    /// table. The two slices must be equally long, and every index must refer to a string of
    /// the table.
    pub fn new(
        key_indices: &'a [u32],
        value_indices: &'a [u32],
        string_table: &'a StringTable,
    ) -> (r: Self)
        requires
            key_indices@.len() == value_indices@.len(),
            in_table(string_table, key_indices@),
            in_table(string_table, value_indices@),
        ensures
            r.string_table() == string_table,
            r.key_indices() == key_indices@,
            r.value_indices() == value_indices@,
            r.position() == 0,
    {
        TagReader { string_table, key_indices, value_indices, idx: 0 }
    }

    /// Whether every one of `indices` refers to a string of `string_table`.
    fn all_in_table(indices: &[u32], string_table: &StringTable) -> (r: bool)
        ensures
            r == in_table(string_table, indices@),
    {
        let len = string_table.s.len();
        let mut i: usize = 0;
        while i < indices.len()
            invariant
                len == string_table.len(),
                i <= indices@.len(),
                forall|k: int| 0 <= k < i ==> (#[trigger] indices@[k]) < len,
            decreases indices@.len() - i,
        {
            if indices[i] as usize >= len {
                return false;
            }
            i += 1;
        }
        true
    }

    /// Constructs a new `TagReader` where the slices fit each other and the table: it fails,
    /// with `None`, exactly where the two slices differ in length or an index refers to no
    /// string of the table.
    pub fn try_new(
        key_indices: &'a [u32],
        value_indices: &'a [u32],
        string_table: &'a StringTable,
    ) -> (r: Option<Self>)
        ensures
            match r {
                Some(reader) => {
                    &&& key_indices@.len() == value_indices@.len()
                    &&& in_table(string_table, key_indices@)
                    &&& in_table(string_table, value_indices@)
                    &&& reader.string_table() == string_table
                    &&& reader.key_indices() == key_indices@
                    &&& reader.value_indices() == value_indices@
                    &&& reader.position() == 0
                },
                None => !(key_indices@.len() == value_indices@.len() && in_table(
                    string_table,
                    key_indices@,
                ) && in_table(string_table, value_indices@)),
            },
    {
        if key_indices.len() == value_indices.len() && Self::all_in_table(
            key_indices,
            string_table,
        ) && Self::all_in_table(value_indices, string_table) {
            Some(TagReader::new(key_indices, value_indices, string_table))
        } else {
            None
        }
    }

    /// Yields the next tag: the text of the strings that the next key index and the next value
    /// index refer to, each read on its own. Returns `None`, and changes nothing, once every
    /// pair of indices was read.
    pub fn next(&mut self) -> (r: Option<(Result<&'a str, Utf8Error>, Result<&'a str, Utf8Error>)>)
        ensures
            final(self).string_table() == old(self).string_table(),
            final(self).key_indices() == old(self).key_indices(),
            final(self).value_indices() == old(self).value_indices(),
            match r {
                Some((key, value)) => {
                    let i = old(self).position() as int;
                    let table = old(self).string_table();
                    &&& i < old(self).key_indices().len()
                    &&& is_text(key, table.entry(old(self).key_indices()[i] as int))
                    &&& is_text(value, table.entry(old(self).value_indices()[i] as int))
                    &&& final(self).position() == i + 1
                },
                None => {
                    &&& old(self).position() >= old(self).key_indices().len()
                    &&& final(self).position() == old(self).position()
                },
            },
    {
        proof {
            use_type_invariant(&*self);
        }
        if self.idx < self.key_indices.len() {
            let key_index = self.key_indices[self.idx] as usize;
            let value_index = self.value_indices[self.idx] as usize;
            let key = text(self.string_table.s[key_index].as_slice());
            let value = text(self.string_table.s[value_index].as_slice());
            self.idx += 1;
            Some((key, value))
        } else {
            None
        }
    }
}

} // verus!
