use exec_uproc::netproxy::encode_frame;

#[test]
fn frame_for_alice() {
    let frame = encode_frame("alice");
    assert_eq!(frame, vec![0x09, 0x00, 0x00, 0x00, b'a', b'l', b'i', b'c', b'e']);
}

#[test]
fn frame_for_empty_principal() {
    let frame = encode_frame("");
    assert_eq!(frame, vec![0x04, 0x00, 0x00, 0x00]);
}

#[test]
fn frame_length_field_counts_itself() {
    let frame = encode_frame("NO_PRINCIPAL_IN_ENV");
    assert_eq!(frame.len(), 19 + 4);
    assert_eq!(frame[0] as usize, 19 + 4);
    assert_eq!(&frame[1..4], &[0, 0, 0]);
    assert_eq!(&frame[4..], "NO_PRINCIPAL_IN_ENV".as_bytes());
}
