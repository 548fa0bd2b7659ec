use autogui_core::{
    capture_result, AGError, AdbBuilder, BootAction, BootEvent, Event, RecvData, Service,
};

fn io_error() -> std::io::Error {
    std::io::Error::new(std::io::ErrorKind::ConnectionRefused, "refused")
}

fn png_bytes() -> Vec<u8> {
    let img = image::RgbaImage::from_raw(2, 1, vec![255, 0, 0, 255, 0, 0, 255, 128]).unwrap();
    let mut buf = std::io::Cursor::new(Vec::new());
    image::DynamicImage::ImageRgba8(img)
        .write_to(&mut buf, image::ImageOutputFormat::Png)
        .unwrap();
    buf.into_inner()
}

#[test]
fn defaults_fill_unset_settings() {
    let c = AdbBuilder::new().resolve(false);
    assert_eq!(c.addr, "127.0.0.1:5037");
    assert_eq!(c.timeout_ms, 3000);
    assert_eq!(c.bin_path, "adb");
    assert_eq!(c.target, "127.0.0.1:5555");
    assert!(!c.connect);
    assert_eq!(AdbBuilder::new().resolve(true).bin_path, "adb.exe");
}

#[test]
fn given_settings_are_kept() {
    let c = AdbBuilder::new()
        .with_addr("10.0.0.2:5037")
        .with_timeout(500)
        .with_bin_path("/opt/adb")
        .with_target("emulator-5554")
        .resolve(true);
    assert_eq!(c.addr, "10.0.0.2:5037");
    assert_eq!(c.timeout_ms, 500);
    assert_eq!(c.bin_path, "/opt/adb");
    assert_eq!(c.target, "emulator-5554");
    assert!(c.connect);
}

#[test]
fn no_server_starts_daemon_once_then_fails() {
    let (mut b, a) = AdbBuilder::new().with_bin_path("adb").build(false);
    assert!(matches!(a, BootAction::Dial(ref addr) if addr == "127.0.0.1:5037"));
    let mut starts = 0;
    let mut dials = 1;
    let mut a = b.step(BootEvent::Failed(io_error()));
    while !b.is_finished() {
        match a {
            BootAction::StartDaemon(ref p) => {
                assert_eq!(p, "adb");
                starts += 1;
                a = b.step(BootEvent::Done);
            }
            BootAction::Dial(_) => {
                dials += 1;
                a = b.step(BootEvent::Failed(io_error()));
            }
            _ => panic!("unexpected action"),
        }
    }
    assert_eq!(starts, 1);
    assert_eq!(dials, 2);
    assert!(matches!(a, BootAction::Fail(AGError::Io(_))));
}

#[test]
fn running_server_needs_no_daemon() {
    let (mut b, _) = AdbBuilder::new().with_timeout(1500).build(false);
    assert!(matches!(b.step(BootEvent::Done), BootAction::SetTimeouts(1500)));
    match b.step(BootEvent::Done) {
        BootAction::Ready(s, connect) => {
            assert!(!connect);
            assert_eq!(s.target(), "127.0.0.1:5555");
        }
        _ => panic!("expected a ready session"),
    }
}

#[test]
fn lib_it_works() {
    let (mut b, _) = AdbBuilder::new()
        .with_target("127.0.0.1:7555")
        .with_bin_path(r"adb.exe")
        .build(true);
    b.step(BootEvent::Done);
    let mut s = match b.step(BootEvent::Done) {
        BootAction::Ready(s, connect) => {
            assert!(connect);
            s
        }
        _ => panic!("expected a ready session"),
    };
    s.begin(Service::Connect, "127.0.0.1:7555");
    for ev in [Event::Sent, Event::Status(*b"OKAY"), Event::Sent, Event::Status(*b"OKAY"), Event::Drained(Vec::new())] {
        s.step(ev);
    }
    assert!(matches!(s.step(Event::Redialed), autogui_core::Action::Finish(Ok(_))));
    assert_eq!(s.target(), "127.0.0.1:7555");
    let img = capture_result(RecvData { is_ok: true, data: png_bytes() }).unwrap();
    assert_eq!((img.width, img.height), (2, 1));
    assert_eq!(img.pixels, vec![255, 0, 0, 255, 0, 0, 255, 128]);
}

#[test]
fn capture_of_garbage_is_image_error() {
    let r = capture_result(RecvData { is_ok: true, data: b"not an image".to_vec() });
    assert!(matches!(r, Err(AGError::Image(_))));
}

#[test]
fn refused_capture_carries_message() {
    match capture_result(RecvData { is_ok: false, data: b"device offline".to_vec() }) {
        Err(AGError::Custom(m)) => assert_eq!(m, "device offline"),
        _ => panic!("expected the device's message"),
    }
}
