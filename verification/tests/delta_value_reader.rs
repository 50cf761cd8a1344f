use rosm_pbf_reader::{delta_decode, DeltaValueReader};

#[test]
fn empty_input() {
    let mut reader = DeltaValueReader::new(&[] as &[i64]);
    assert_eq!(reader.next(), None);
}

#[test]
fn lib_valid_input() {
    let values = [10, -1, 4, -2];
    let mut reader = DeltaValueReader::new(&values);
    assert_eq!(reader.next(), Some(10));
    assert_eq!(reader.next(), Some(9));
    assert_eq!(reader.next(), Some(13));
    assert_eq!(reader.next(), Some(11));
}

#[test]
fn reader_ends_after_the_last_delta() {
    let values: [i64; 2] = [5, 5];
    let mut reader = DeltaValueReader::new(&values);
    assert_eq!(reader.next(), Some(5));
    assert_eq!(reader.next(), Some(10));
    assert_eq!(reader.next(), None);
    assert_eq!(reader.next(), None);
}

#[test]
fn values_are_sums_of_deltas() {
    let values: Vec<i64> = vec![1_000_000_000_000, -999_999_999_999, 41, -43, 0, 7];
    let mut reader = DeltaValueReader::new(&values);
    let mut sum = 0i64;
    for delta in &values {
        sum += delta;
        assert_eq!(reader.next(), Some(sum));
    }
    assert_eq!(reader.next(), None);
}

#[test]
fn unsigned_values_accumulate() {
    let values: [u32; 3] = [1, 2, 3];
    let mut reader = DeltaValueReader::new(&values);
    assert_eq!(reader.next(), Some(1));
    assert_eq!(reader.next(), Some(3));
    assert_eq!(reader.next(), Some(6));
    let wide: [u64; 2] = [u64::MAX, 2];
    let mut reader = DeltaValueReader::new(&wide);
    assert_eq!(reader.next(), Some(u64::MAX));
    assert_eq!(reader.next(), Some(1));
}

#[test]
fn a_total_that_does_not_fit_wraps() {
    let values: [i32; 2] = [i32::MAX, 1];
    let mut reader = DeltaValueReader::new(&values);
    assert_eq!(reader.next(), Some(i32::MAX));
    assert_eq!(reader.next(), Some(i32::MIN));
}

#[test]
fn delta_decode_advances_the_total() {
    let mut current = 40i64;
    assert_eq!(delta_decode(&mut current, Some(&2)), Some(42));
    assert_eq!(current, 42);
    assert_eq!(delta_decode(&mut current, None), None);
    assert_eq!(current, 42);
    assert_eq!(delta_decode(&mut current, Some(&-50)), Some(-8));
}

#[test]
fn every_integer_width_accumulates() {
    assert_eq!(DeltaValueReader::new(&[100i8, 27, 1]).next(), Some(100));
    let mut narrow = DeltaValueReader::new(&[100i8, 27, 1]);
    assert_eq!((narrow.next(), narrow.next(), narrow.next()), (Some(100), Some(127), Some(-128)));
    let mut bytes = DeltaValueReader::new(&[200u8, 55, 1]);
    assert_eq!((bytes.next(), bytes.next(), bytes.next()), (Some(200), Some(255), Some(0)));
    let mut short = DeltaValueReader::new(&[-5i16, 7]);
    assert_eq!((short.next(), short.next()), (Some(-5), Some(2)));
    let mut words = DeltaValueReader::new(&[65535u16, 1]);
    assert_eq!((words.next(), words.next()), (Some(65535), Some(0)));
    let mut wide = DeltaValueReader::new(&[i128::MAX, 1]);
    assert_eq!((wide.next(), wide.next()), (Some(i128::MAX), Some(i128::MIN)));
    let mut widest = DeltaValueReader::new(&[u128::MAX, 3]);
    assert_eq!((widest.next(), widest.next()), (Some(u128::MAX), Some(2)));
    let mut sizes = DeltaValueReader::new(&[3usize, 4]);
    assert_eq!((sizes.next(), sizes.next()), (Some(3), Some(7)));
    let mut offsets = DeltaValueReader::new(&[3isize, -4]);
    assert_eq!((offsets.next(), offsets.next()), (Some(3), Some(-1)));
}
