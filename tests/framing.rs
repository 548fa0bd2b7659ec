use autogui_core::{
    capture_command, decode_length, encode_length, frame, key_command, status_is_okay,
    swipe_command, tap_command, text_command, AGError,
};

#[test]
fn header_of_small_length() {
    assert_eq!(encode_length(0).unwrap(), b"0000".to_vec());
    assert_eq!(encode_length(12).unwrap(), b"000C".to_vec());
}

#[test]
fn header_is_uppercase_big_endian() {
    assert_eq!(encode_length(0x1A2B).unwrap(), b"1A2B".to_vec());
    assert_eq!(encode_length(65535).unwrap(), b"FFFF".to_vec());
}

#[test]
fn header_refuses_oversized_length() {
    match encode_length(65536) {
        Err(AGError::Custom(m)) => assert_eq!(m, "frame too long"),
        _ => panic!("a length past 65535 must be refused"),
    }
}

#[test]
fn every_length_round_trips() {
    for n in 0..=65535usize {
        let h = encode_length(n).unwrap();
        let arr = [h[0], h[1], h[2], h[3]];
        assert_eq!(decode_length(&arr).unwrap() as usize, n);
    }
}

#[test]
fn lowercase_header_decodes() {
    assert_eq!(decode_length(b"1a2b").unwrap(), 0x1A2B);
}

#[test]
fn malformed_header_is_decode_error() {
    assert!(matches!(decode_length(b"zz00"), Err(AGError::Decode)));
    assert!(matches!(decode_length(b"12 4"), Err(AGError::Decode)));
}

#[test]
fn frame_prefixes_length() {
    assert_eq!(frame(b"host:version").unwrap(), b"000Chost:version".to_vec());
    assert_eq!(frame(b"").unwrap(), b"0000".to_vec());
}

#[test]
fn frame_refuses_oversized_payload() {
    let big = vec![b'a'; 65536];
    assert!(matches!(frame(&big), Err(AGError::Custom(_))));
    let max = vec![b'a'; 65535];
    let f = frame(&max).unwrap();
    assert_eq!(&f[..4], b"FFFF");
    assert_eq!(f.len(), 65539);
}

#[test]
fn only_okay_is_acknowledgement() {
    assert!(status_is_okay(b"OKAY"));
    assert!(!status_is_okay(b"FAIL"));
    assert!(!status_is_okay(b"okay"));
    assert!(!status_is_okay(b"OKAZ"));
}

#[test]
fn tap_command_text() {
    assert_eq!(tap_command(10, 20), b"input tap 10 20".to_vec());
    assert_eq!(tap_command(0, 4294967295), b"input tap 0 4294967295".to_vec());
}

#[test]
fn swipe_command_text() {
    assert_eq!(swipe_command(1, 2, 300, 4000), b"input swipe 1 2 300 4000".to_vec());
}

#[test]
fn key_command_text() {
    assert_eq!(key_command(66), b"input keyevent 66".to_vec());
}

#[test]
fn text_command_is_not_escaped() {
    assert_eq!(text_command("a b;c"), b"input text a b;c".to_vec());
}

#[test]
fn capture_command_text() {
    assert_eq!(capture_command(), b"screencap -p".to_vec());
}
