use rosm_pbf_reader::pbf;
use rosm_pbf_reader::tags::decode_string;
use rosm_pbf_reader::{DenseTagReader, Error, TagReader};

fn table(strings: &[&[u8]]) -> pbf::StringTable {
    let mut string_table = pbf::StringTable::default();
    string_table.s = strings.iter().map(|s| s.to_vec()).collect();
    string_table
}

#[test]
fn dense_tag_reader_valid_input() {
    let key_vals = ["", "key1", "val1", "key2", "val2"];
    let mut string_table = pbf::StringTable::default();
    string_table.s = key_vals.iter().map(|s| s.as_bytes().to_vec()).collect();

    let key_value_indices = [1, 2];
    let mut reader = DenseTagReader::new(&string_table, &key_value_indices);

    match reader.next() {
        Some(tags) => match tags {
            (Ok("key1"), Ok("val1")) => {}
            _ => assert!(false),
        },
        None => assert!(false),
    }
    assert!(reader.next().is_none());
}

#[test]
fn dense_tags_come_in_order() {
    let string_table = table(&[b"", b"key1", b"val1", b"key2", b"val2"]);
    let key_value_indices = [1, 2, 3, 4];
    let mut reader = DenseTagReader::new(&string_table, &key_value_indices);
    assert!(matches!(reader.next(), Some((Ok("key1"), Ok("val1")))));
    assert!(matches!(reader.next(), Some((Ok("key2"), Ok("val2")))));
    assert!(reader.next().is_none());
    assert!(reader.next().is_none());
}

#[test]
fn a_single_trailing_index_is_no_tag() {
    let string_table = table(&[b"", b"a", b"b"]);
    let key_value_indices = [1, 2, 1];
    let mut reader = DenseTagReader::new(&string_table, &key_value_indices);
    assert!(matches!(reader.next(), Some((Ok("a"), Ok("b")))));
    assert!(reader.next().is_none());
    let single = [1];
    assert!(DenseTagReader::new(&string_table, &single).next().is_none());
}

#[test]
fn a_bad_index_fails_its_own_half_only() {
    let string_table = table(&[b"", b"key", &[0xff, 0xfe], b"val"]);
    let key_value_indices = [-1, 3, 1, 4, 2, 3, 1, 2, 1, 3];
    let mut reader = DenseTagReader::new(&string_table, &key_value_indices);
    assert!(matches!(reader.next(), Some((Err(Error::LogicError(_)), Ok("val")))));
    assert!(matches!(reader.next(), Some((Ok("key"), Err(Error::LogicError(_))))));
    assert!(matches!(reader.next(), Some((Err(Error::LogicError(_)), Ok("val")))));
    assert!(matches!(reader.next(), Some((Ok("key"), Err(Error::LogicError(_))))));
    assert!(matches!(reader.next(), Some((Ok("key"), Ok("val")))));
    assert!(reader.next().is_none());
}

#[test]
fn decode_string_checks_index_and_text() {
    let string_table = table(&[b"", "caf\u{e9}".as_bytes(), &[b'a', 0x80]]);
    assert!(matches!(decode_string(&string_table, 0), Ok("")));
    assert!(matches!(decode_string(&string_table, 1), Ok("caf\u{e9}")));
    assert!(matches!(decode_string(&string_table, 2), Err(Error::LogicError(_))));
    assert!(matches!(decode_string(&string_table, 3), Err(Error::LogicError(_))));
    assert!(matches!(decode_string(&string_table, -1), Err(Error::LogicError(_))));
    assert!(matches!(decode_string(&string_table, i32::MIN), Err(Error::LogicError(_))));
    assert!(matches!(decode_string(&string_table, i32::MAX), Err(Error::LogicError(_))));
}

#[test]
fn tag_reader_pairs_keys_with_values() {
    let string_table = table(&[b"", b"highway", b"residential", b"name", "Stra\u{df}e".as_bytes()]);
    let keys = [1u32, 3];
    let vals = [2u32, 4];
    let mut reader = TagReader::new(&keys, &vals, &string_table);
    assert!(matches!(reader.next(), Some((Ok("highway"), Ok("residential")))));
    assert!(matches!(reader.next(), Some((Ok("name"), Ok("Stra\u{df}e")))));
    assert!(reader.next().is_none());
    assert!(reader.next().is_none());
}

#[test]
fn tag_reader_reports_invalid_text_per_half() {
    let string_table = table(&[b"", b"ok", &[0xc3, 0x28]]);
    let keys = [1u32, 2, 2];
    let vals = [2u32, 1, 2];
    let mut reader = TagReader::new(&keys, &vals, &string_table);
    assert!(matches!(reader.next(), Some((Ok("ok"), Err(_)))));
    assert!(matches!(reader.next(), Some((Err(_), Ok("ok")))));
    assert!(matches!(reader.next(), Some((Err(_), Err(_)))));
    assert!(reader.next().is_none());
}

#[test]
fn tag_reader_without_tags_is_empty() {
    let string_table = table(&[]);
    let mut reader = TagReader::new(&[], &[], &string_table);
    assert!(reader.next().is_none());
}

#[test]
fn try_new_checks_lengths_and_indices() {
    let string_table = table(&[b"", b"a", b"b"]);
    let mut reader = TagReader::try_new(&[1, 2], &[2, 1], &string_table).unwrap();
    assert!(matches!(reader.next(), Some((Ok("a"), Ok("b")))));
    assert!(matches!(reader.next(), Some((Ok("b"), Ok("a")))));
    assert!(reader.next().is_none());
    assert!(TagReader::try_new(&[], &[], &string_table).is_some());
    // Slices of different lengths.
    assert!(TagReader::try_new(&[1, 2], &[1], &string_table).is_none());
    assert!(TagReader::try_new(&[], &[1], &string_table).is_none());
    // An index beyond the table, among the keys or among the values.
    assert!(TagReader::try_new(&[1, 3], &[1, 2], &string_table).is_none());
    assert!(TagReader::try_new(&[1, 2], &[u32::MAX, 2], &string_table).is_none());
    assert!(TagReader::try_new(&[2], &[2], &string_table).is_some());
    assert!(TagReader::try_new(&[0], &[0], &table(&[])).is_none());
}
