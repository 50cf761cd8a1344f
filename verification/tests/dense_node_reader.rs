use rosm_pbf_reader::pbf;
use rosm_pbf_reader::{DenseNode, DenseNodeReader, Error};

fn collect_ok<'a>(reader: &mut DenseNodeReader<'a>) -> Vec<DenseNode<'a>> {
    let mut result = Vec::new();
    while let Some(item) = reader.next() {
        if let Ok(node) = item {
            result.push(node);
        }
    }
    result
}

#[test]
fn valid_input() {
    let dense_info = pbf::DenseInfo {
        user_sid: vec![i32::MAX, 1],
        version: vec![2, 4],
        timestamp: vec![2, 1],
        changeset: vec![2, -1],
        uid: vec![5, -1],
        visible: vec![true, false],
    };

    let dense_nodes = pbf::DenseNodes {
        id: vec![2, -1],
        denseinfo: Some(dense_info),
        lat: vec![-3, 1],
        lon: vec![3, -1],
        keys_vals: vec![1, 2, 0, 3, 4, 0],
    };

    let mut reader = DenseNodeReader::new(&dense_nodes).expect("dense node reader should be created on valid data");
    let mut result: Vec<DenseNode> = collect_ok(&mut reader);

    assert_eq!(result.len(), 2);
    let first = &mut result[0];
    assert_eq!(first.id, 2);
    assert_eq!(first.lat, -3);
    assert_eq!(first.lon, 3);
    assert_eq!(first.key_value_indices, [1, 2]);
    let first_info = first.info.as_ref().unwrap();
    assert_eq!(first_info.uid, Some(5));
    assert_eq!(first_info.timestamp, Some(2));
    assert_eq!(first_info.version, Some(2));
    assert_eq!(first_info.changeset, Some(2));
    assert_eq!(first_info.visible, Some(true));
    assert_eq!(first_info.user_sid, Some(i32::MAX as u32));

    let second = &mut result[1];
    assert_eq!(second.id, 1);
    assert_eq!(second.lat, -2);
    assert_eq!(second.lon, 2);
    assert_eq!(second.key_value_indices, [3, 4]);
    let second_info = second.info.as_ref().unwrap();
    assert_eq!(second_info.uid, Some(4));
    assert_eq!(second_info.timestamp, Some(3));
    assert_eq!(second_info.version, Some(4));
    assert_eq!(second_info.changeset, Some(1));
    assert_eq!(second_info.visible, Some(false));
    assert_eq!(second_info.user_sid, Some(i32::MAX as u32 + 1));
}

fn dense_nodes(id_count: usize, lat_count: usize, lon_count: usize) -> pbf::DenseNodes {
    pbf::DenseNodes {
        id: vec![0; id_count],
        denseinfo: None,
        lat: vec![0; lat_count],
        lon: vec![0; lon_count],
        keys_vals: vec![],
    }
}

#[test]
fn invalid_required_data_lengths() {
    assert!(DenseNodeReader::new(&dense_nodes(0, 0, 0)).is_ok());
    assert!(DenseNodeReader::new(&dense_nodes(1, 0, 0)).is_err());
    assert!(DenseNodeReader::new(&dense_nodes(0, 1, 0)).is_err());
    assert!(DenseNodeReader::new(&dense_nodes(0, 0, 1)).is_err());
}

#[test]
fn mismatched_lengths_are_a_logic_error() {
    assert!(matches!(DenseNodeReader::new(&dense_nodes(2, 2, 1)), Err(Error::LogicError(_))));
    assert!(matches!(DenseNodeReader::new(&dense_nodes(2, 1, 2)), Err(Error::LogicError(_))));
    assert!(DenseNodeReader::new(&dense_nodes(2, 2, 2)).is_ok());
}

#[test]
fn invalid_user_sid() {
    let dense_info = pbf::DenseInfo {
        user_sid: vec![0, -1],
        ..Default::default()
    };

    let dense_nodes = pbf::DenseNodes {
        id: vec![0, 0],
        denseinfo: Some(dense_info),
        lat: vec![0, 0],
        lon: vec![0, 0],
        keys_vals: vec![],
    };

    let mut reader = DenseNodeReader::new(&dense_nodes).expect("dense node reader should be created on valid data");

    let next = reader.next();
    assert!(next.is_some());
    let next = reader.next();
    assert!(next.is_some());
    assert!(next.unwrap().is_err());
}

#[test]
fn user_sid_error_concerns_one_node_only() {
    let dense_info = pbf::DenseInfo {
        user_sid: vec![3, -5, 2],
        timestamp: vec![10, 20, 30],
        changeset: vec![1, 1, 1],
        uid: vec![7, 7, 7],
        version: vec![1, 2, 3],
        visible: vec![true, true, false],
    };
    let dense_nodes = pbf::DenseNodes {
        id: vec![100, 1, 1],
        denseinfo: Some(dense_info),
        lat: vec![5, 5, 5],
        lon: vec![-5, -5, -5],
        keys_vals: vec![1, 2, 0, 3, 4, 0, 5, 6, 0],
    };
    let mut reader = DenseNodeReader::new(&dense_nodes).unwrap();

    let first = reader.next().unwrap().unwrap();
    assert_eq!(first.id, 100);
    assert_eq!(first.info.unwrap().user_sid, Some(3));
    assert_eq!(first.key_value_indices, [1, 2]);

    assert!(matches!(reader.next(), Some(Err(Error::LogicError(_)))));

    // The failed node used up its own deltas and its own tags; only the total of the user
    // string index stayed where it was.
    let third = reader.next().unwrap().unwrap();
    assert_eq!(third.id, 102);
    assert_eq!(third.lat, 15);
    assert_eq!(third.lon, -15);
    let info = third.info.unwrap();
    assert_eq!(info.user_sid, Some(5));
    assert_eq!(info.timestamp, Some(60));
    assert_eq!(info.changeset, Some(3));
    assert_eq!(info.uid, Some(21));
    assert_eq!(info.version, Some(3));
    assert_eq!(info.visible, Some(false));
    assert_eq!(third.key_value_indices, [5, 6]);

    assert!(reader.next().is_none());
    assert!(reader.next().is_none());
}

#[test]
fn user_sid_beyond_unsigned_range_is_an_error() {
    let dense_info = pbf::DenseInfo {
        user_sid: vec![i32::MAX, i32::MAX, 1, 1],
        ..Default::default()
    };
    let dense_nodes = pbf::DenseNodes {
        id: vec![0; 4],
        denseinfo: Some(dense_info),
        lat: vec![0; 4],
        lon: vec![0; 4],
        keys_vals: vec![],
    };
    let mut reader = DenseNodeReader::new(&dense_nodes).unwrap();
    assert_eq!(reader.next().unwrap().unwrap().info.unwrap().user_sid, Some(2147483647));
    assert_eq!(reader.next().unwrap().unwrap().info.unwrap().user_sid, Some(4294967294));
    assert_eq!(reader.next().unwrap().unwrap().info.unwrap().user_sid, Some(u32::MAX));
    assert!(matches!(reader.next(), Some(Err(Error::LogicError(_)))));
    assert!(reader.next().is_none());
}

#[test]
fn metadata_reaches_as_far_as_its_arrays() {
    let dense_info = pbf::DenseInfo {
        version: vec![9],
        timestamp: vec![4, 4],
        changeset: vec![],
        uid: vec![-3],
        user_sid: vec![],
        visible: vec![],
    };
    let dense_nodes = pbf::DenseNodes {
        id: vec![1, 1],
        denseinfo: Some(dense_info),
        lat: vec![0, 0],
        lon: vec![0, 0],
        keys_vals: vec![],
    };
    let mut reader = DenseNodeReader::new(&dense_nodes).unwrap();
    let first = reader.next().unwrap().unwrap().info.unwrap();
    assert_eq!(
        first,
        pbf::Info {
            version: Some(9),
            timestamp: Some(4),
            changeset: None,
            uid: Some(-3),
            user_sid: None,
            visible: None
        }
    );
    let second = reader.next().unwrap().unwrap().info.unwrap();
    assert_eq!(
        second,
        pbf::Info { version: None, timestamp: Some(8), changeset: None, uid: None, user_sid: None, visible: None }
    );
}

#[test]
fn nodes_without_metadata_have_no_info() {
    let dense_nodes = pbf::DenseNodes { id: vec![5], denseinfo: None, lat: vec![6], lon: vec![7], keys_vals: vec![] };
    let mut reader = DenseNodeReader::new(&dense_nodes).unwrap();
    let node = reader.next().unwrap().unwrap();
    assert_eq!((node.id, node.lat, node.lon), (5, 6, 7));
    assert!(node.info.is_none());
    assert!(node.key_value_indices.is_empty());
    assert!(reader.next().is_none());
}

#[test]
fn tags_without_a_last_separator_end_with_the_array() {
    let dense_nodes = pbf::DenseNodes {
        id: vec![1, 1, 1],
        denseinfo: None,
        lat: vec![0; 3],
        lon: vec![0; 3],
        keys_vals: vec![0, 7, 8],
    };
    let mut reader = DenseNodeReader::new(&dense_nodes).unwrap();
    assert_eq!(reader.next().unwrap().unwrap().key_value_indices, [] as [i32; 0]);
    assert_eq!(reader.next().unwrap().unwrap().key_value_indices, [7, 8]);
    assert_eq!(reader.next().unwrap().unwrap().key_value_indices, [] as [i32; 0]);
    assert!(reader.next().is_none());
}

#[test]
fn a_zero_at_a_value_place_separates_nothing() {
    let dense_nodes = pbf::DenseNodes {
        id: vec![1, 1],
        denseinfo: None,
        lat: vec![0; 2],
        lon: vec![0; 2],
        keys_vals: vec![1, 0, 2, 3, 0, 4, 5],
    };
    let mut reader = DenseNodeReader::new(&dense_nodes).unwrap();
    assert_eq!(reader.next().unwrap().unwrap().key_value_indices, [1, 0, 2, 3]);
    assert_eq!(reader.next().unwrap().unwrap().key_value_indices, [4, 5]);
}

#[test]
fn totals_wrap_around() {
    let dense_nodes = pbf::DenseNodes {
        id: vec![i64::MAX, 1],
        denseinfo: None,
        lat: vec![i64::MIN, -1],
        lon: vec![0, 0],
        keys_vals: vec![],
    };
    let mut reader = DenseNodeReader::new(&dense_nodes).unwrap();
    reader.next().unwrap().unwrap();
    let node = reader.next().unwrap().unwrap();
    assert_eq!(node.id, i64::MIN);
    assert_eq!(node.lat, i64::MAX);
}

#[test]
fn a_failed_node_uses_up_its_own_tags() {
    let dense_nodes = pbf::DenseNodes {
        id: vec![1, 1, 1],
        denseinfo: Some(pbf::DenseInfo { user_sid: vec![0, -1, 1], ..Default::default() }),
        lat: vec![0, 0, 0],
        lon: vec![0, 0, 0],
        keys_vals: vec![1, 2, 0, 3, 4, 0, 5, 6, 0],
    };
    let mut reader = DenseNodeReader::new(&dense_nodes).unwrap();
    assert_eq!(reader.next().unwrap().unwrap().key_value_indices, [1, 2]);
    assert!(matches!(reader.next(), Some(Err(Error::LogicError(_)))));
    let third = reader.next().unwrap().unwrap();
    assert_eq!(third.key_value_indices, [5, 6]);
    assert_eq!(third.id, 3);
    assert_eq!(third.info.unwrap().user_sid, Some(1));
    assert!(reader.next().is_none());
}

#[test]
fn nodes_after_a_failed_node_are_read_as_without_it() {
    let nodes = |user_sid: Vec<i32>| pbf::DenseNodes {
        id: vec![4, 4, 4, 4],
        denseinfo: Some(pbf::DenseInfo {
            user_sid,
            timestamp: vec![1, 2, 3, 4],
            changeset: vec![5, 5, 5, 5],
            uid: vec![1, -1, 1, -1],
            version: vec![1, 1, 1, 1],
            visible: vec![],
        }),
        lat: vec![1, 1, 1, 1],
        lon: vec![2, 2, 2, 2],
        keys_vals: vec![1, 2, 0, 0, 3, 4, 5, 6, 0, 7, 8],
    };
    let failing = nodes(vec![1, -2, 0, 0]);
    let sound = nodes(vec![1, 0, 0, 0]);
    let mut first = DenseNodeReader::new(&failing).unwrap();
    let mut second = DenseNodeReader::new(&sound).unwrap();
    for i in 0..4 {
        let a = first.next().unwrap();
        let b = second.next().unwrap().unwrap();
        if i == 1 {
            assert!(matches!(a, Err(Error::LogicError(_))));
        } else {
            let a = a.unwrap();
            assert_eq!((a.id, a.lat, a.lon, a.info), (b.id, b.lat, b.lon, b.info));
            assert_eq!(a.key_value_indices, b.key_value_indices);
        }
    }
    assert!(first.next().is_none());
}
