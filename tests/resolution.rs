use autogui_core::{parse_wm_size, resolution_command, resolution_result, AGError, RecvData};

#[test]
fn wm_size_is_parsed() {
    assert_eq!(parse_wm_size(b"Physical size: 1080x1920\n"), Some((1080, 1920)));
    assert_eq!(parse_wm_size(b"Physical size: 720x1280"), Some((720, 1280)));
    assert_eq!(
        parse_wm_size(b"Physical size: 1440x2560\r\nOverride size: 1080x1920\n"),
        Some((1440, 2560))
    );
}

#[test]
fn wm_size_of_other_shape_is_refused() {
    assert_eq!(parse_wm_size(b""), None);
    assert_eq!(parse_wm_size(b"Physical size: x1920\n"), None);
    assert_eq!(parse_wm_size(b"Physical size: 1080x\n"), None);
    assert_eq!(parse_wm_size(b"Physical size: 1080 1920\n"), None);
    assert_eq!(parse_wm_size(b"Physical size: 1080x1920 px"), None);
    assert_eq!(parse_wm_size(b"Physical size: 4294967296x1"), None);
    assert_eq!(parse_wm_size(b"Physical size: 4294967295x1"), Some((4294967295, 1)));
}

#[test]
fn resolution_from_reply() {
    assert_eq!(resolution_command(), b"wm size".to_vec());
    let r = resolution_result(RecvData { is_ok: true, data: b"Physical size: 1080x2400\n".to_vec() });
    assert_eq!(r.unwrap(), (1080, 2400));
    match resolution_result(RecvData { is_ok: true, data: b"size unknown".to_vec() }) {
        Err(AGError::Custom(m)) => assert_eq!(m, "unrecognised screen size"),
        _ => panic!("expected an unrecognised size"),
    }
    match resolution_result(RecvData { is_ok: false, data: vec![0x66, 0xff, 0x6f] }) {
        Err(AGError::Custom(m)) => assert_eq!(m, "f\u{FFFD}o"),
        _ => panic!("expected the device's message"),
    }
}
