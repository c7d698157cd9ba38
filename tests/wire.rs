use samply_launch::wire::{decode_execerr_msg, encode_execerr_msg, EXECERR_MSG_FOOTER};

#[test]
fn encode_small_code() {
    assert_eq!(encode_execerr_msg(2), [0, 0, 0, 2, b'N', b'O', b'E', b'X']);
}

#[test]
fn encode_multi_byte_code() {
    assert_eq!(encode_execerr_msg(0x0102_0304), [1, 2, 3, 4, b'N', b'O', b'E', b'X']);
}

#[test]
fn encode_negative_code() {
    assert_eq!(encode_execerr_msg(-1), [0xff, 0xff, 0xff, 0xff, b'N', b'O', b'E', b'X']);
    assert_eq!(encode_execerr_msg(i32::MIN), [0x80, 0, 0, 0, b'N', b'O', b'E', b'X']);
}

#[test]
fn encode_matches_std_big_endian() {
    for e in [0, 1, 2, 13, 255, 256, -2, 0x7fff_ffff, i32::MIN, -123_456_789] {
        let m = encode_execerr_msg(e);
        assert_eq!(&m[0..4], &e.to_be_bytes());
        assert_eq!(&m[4..8], &EXECERR_MSG_FOOTER);
    }
}

#[test]
fn footer_spells_noex() {
    assert_eq!(&EXECERR_MSG_FOOTER, b"NOEX");
}

#[test]
fn decode_round_trip() {
    for e in [0, 1, 2, 13, 255, 256, -1, -2, i32::MAX, i32::MIN, 987_654_321] {
        assert_eq!(decode_execerr_msg(&encode_execerr_msg(e)), Some(e));
    }
}

#[test]
fn decode_big_endian_bytes() {
    assert_eq!(decode_execerr_msg(&[0, 0, 1, 0, b'N', b'O', b'E', b'X']), Some(256));
    assert_eq!(decode_execerr_msg(&[0xff, 0xff, 0xff, 0xfe, b'N', b'O', b'E', b'X']), Some(-2));
}

#[test]
fn decode_rejects_wrong_footer() {
    assert_eq!(decode_execerr_msg(&[0, 0, 0, 2, b'N', b'O', b'E', b'Y']), None);
    assert_eq!(decode_execerr_msg(&[0, 0, 0, 2, 0, 0, 0, 0]), None);
    assert_eq!(decode_execerr_msg(&[b'N', b'O', b'E', b'X', 0, 0, 0, 2]), None);
}
