use mavlink_codec::v2::{
    checksum, checksum_data, compat_flags, compid, has_signature, header, incompat_flags, len,
    msgid, packet_size, payload, signature, stx, sysid, V2_STX,
};

const COMMAND_LONG: &[u8] = &[
    253, // stx
    // start of header
    30, // payload len
    0,  // incompat flags
    0,  // compat flags
    0,  // seq
    0,  // sys ID
    50, // comp ID
    76, 0, 0, // msg ID
    // end of header
    // start of payload
    0, 0, 230, 66, 0, 64, 156, 69, 0, 0, 0, 0, 0, 0, 0, 0, 0, 0, 0, 0, 0, 0, 0, 0, 0, 0, 0, 0,
    255, 1, //
    // end of payload
    188, 195, // crc
];

#[test]
fn v2_test_stx() {
    assert_eq!(*stx(&COMMAND_LONG), V2_STX);
}

#[test]
fn v2_test_len() {
    assert_eq!(*len(&COMMAND_LONG), 30);
}

#[test]
fn test_incompat_flags() {
    assert_eq!(*incompat_flags(&COMMAND_LONG), 0);
}

#[test]
fn test_compat_flags() {
    assert_eq!(*compat_flags(&COMMAND_LONG), 0);
}

#[test]
fn v2_test_seq() {
    assert_eq!(*mavlink_codec::v2::seq(&COMMAND_LONG), 0);
}

#[test]
fn v2_test_sysid() {
    assert_eq!(*sysid(&COMMAND_LONG), 0);
}

#[test]
fn v2_test_compid() {
    assert_eq!(*compid(&COMMAND_LONG), 50);
}

#[test]
fn v2_test_msgid() {
    assert_eq!(msgid(&COMMAND_LONG), 76);
}

#[test]
fn v2_test_header() {
    assert_eq!(header(&COMMAND_LONG), &COMMAND_LONG[1..(1 + 9)]);
}

#[test]
fn v2_test_payload() {
    assert_eq!(
        payload(&COMMAND_LONG),
        &COMMAND_LONG[(1 + 9)..((1 + 9) + 30)]
    );
}

#[test]
fn v2_test_checksum() {
    assert_eq!(checksum(&COMMAND_LONG), u16::from_le_bytes([188, 195]));
}

#[test]
fn test_signature_none() {
    assert!(signature(&COMMAND_LONG).is_none());
}

#[test]
fn test_has_signature_false() {
    assert!(!has_signature(&COMMAND_LONG));
}

#[test]
fn v2_test_checksum_data() {
    assert_eq!(
        checksum_data(&COMMAND_LONG),
        &COMMAND_LONG[1..((1 + 9) + 30)]
    );
}

#[test]
fn test_packet_size_no_signature() {
    assert_eq!(packet_size(&COMMAND_LONG), (1 + 9) + 30 + 2);
}

#[test]
fn signed_frame_layout() {
    let mut frame = COMMAND_LONG.to_vec();
    frame[2] = 0x01;
    frame.extend_from_slice(&[7u8; 13]);
    assert!(has_signature(&frame.as_slice()));
    assert_eq!(packet_size(&frame.as_slice()), 12 + 30 + 13);
    assert_eq!(signature(&frame.as_slice()), Some(&[7u8; 13][..]));
}
