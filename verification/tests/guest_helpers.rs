use exec_uproc::guest;

#[test]
fn fnv_shard_placement() {
    assert_eq!(guest::key2shard(&"0".to_string()), 316);
    assert_eq!(guest::key2shard(&"1".to_string()), 349);
    assert_eq!(guest::key2shard(&"hello".to_string()), 479);
    assert_eq!(guest::key2shard(&"user-key-17".to_string()), 223);
}

#[test]
fn fnv_server_placement() {
    assert_eq!(guest::key2server(&"0".to_string(), 5), 3);
    assert_eq!(guest::key2server(&"1".to_string(), 5), 4);
    assert_eq!(guest::key2server(&"hello".to_string(), 5), 3);
    assert_eq!(guest::key2server(&"user-key-17".to_string(), 5), 4);
    assert_eq!(guest::key2server(&"hello".to_string(), 1), 0);
}

#[test]
fn zeroing_a_prefix_leaves_the_tail() {
    let mut buf = vec![9u8, 8, 7, 6, 5];
    guest::zero_buf(&mut buf, 3);
    assert_eq!(buf, vec![0, 0, 0, 6, 5]);
    let mut buf = vec![1u8, 2];
    guest::zero_buf(&mut buf, 0);
    assert_eq!(buf, vec![1, 2]);
    let mut buf = vec![1u8, 2];
    guest::zero_buf(&mut buf, 2);
    assert_eq!(buf, vec![0, 0]);
}

#[test]
fn rpc_frame_packs_path_method_payload() {
    let payload = vec![0xde, 0xad];
    let frame = guest::pack_rpc_frame("name/cache/servers/0", "CacheSrv.MultiGet", &payload);
    let mut expected = b"name/cache/servers/0".to_vec();
    expected.extend_from_slice(b"CacheSrv.MultiGet");
    expected.extend_from_slice(&[0xde, 0xad]);
    assert_eq!(frame, expected);
    assert_eq!(guest::pack_rpc_frame("", "", &vec![]), Vec::<u8>::new());
}

#[test]
fn guest_arithmetic_entry_points() {
    assert_eq!(guest::add(2, 3), 5);
    assert_eq!(guest::add(0, 0), 0);
    assert_eq!(guest::add_and_log(2, 3), 5);
    assert_eq!(guest::add_and_log(1234543, 1), 1234544);
}
