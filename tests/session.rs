use autogui_core::{AGError, Action, Event, RecvData, Service, Session};

fn sent(a: Action) -> Vec<u8> {
    match a {
        Action::Send(b) => b,
        _ => panic!("expected a write"),
    }
}

fn finished(a: Action) -> Result<RecvData, AGError> {
    match a {
        Action::Finish(r) => r,
        _ => panic!("expected the command to finish"),
    }
}

fn io_error() -> std::io::Error {
    std::io::Error::new(std::io::ErrorKind::TimedOut, "timed out")
}

/// Runs one command against a server that answers with `status` and `out`.
fn run(s: &mut Session, service: Service, arg: &str, status: &[u8; 4], out: &[u8]) -> Result<RecvData, AGError> {
    let a = s.begin(service, arg);
    assert!(matches!(a, Action::Send(_)));
    assert!(matches!(s.step(Event::Sent), Action::ReadStatus));
    let a = s.step(Event::Status(*b"OKAY"));
    assert!(matches!(a, Action::Send(_)));
    assert!(matches!(s.step(Event::Sent), Action::ReadStatus));
    assert!(matches!(s.step(Event::Status(*status)), Action::ReadToEnd));
    assert!(matches!(s.step(Event::Drained(out.to_vec())), Action::Redial));
    finished(s.step(Event::Redialed))
}

#[test]
fn shell_echo_hello() {
    let mut s = Session::new("127.0.0.1:5555");
    let a = s.begin(Service::Shell, "echo hello");
    assert_eq!(sent(a), b"001Dhost:transport:127.0.0.1:5555".to_vec());
    assert!(matches!(s.step(Event::Sent), Action::ReadStatus));
    let a = s.step(Event::Status(*b"OKAY"));
    assert_eq!(sent(a), b"0010shell:echo hello".to_vec());
    assert!(matches!(s.step(Event::Sent), Action::ReadStatus));
    assert!(matches!(s.step(Event::Status(*b"OKAY")), Action::ReadToEnd));
    assert!(matches!(s.step(Event::Drained(b"hello\n".to_vec())), Action::Redial));
    let r = finished(s.step(Event::Redialed)).unwrap();
    assert!(r.is_ok);
    assert_eq!(r.data, b"hello\n".to_vec());
    assert!(!s.is_busy());
}

#[test]
fn exec_uses_exec_service() {
    let mut s = Session::new("dev");
    s.begin(Service::Exec, "screencap -p");
    s.step(Event::Sent);
    let a = s.step(Event::Status(*b"OKAY"));
    assert_eq!(sent(a), b"0011exec:screencap -p".to_vec());
}

#[test]
fn shell_reports_refused_service() {
    let mut s = Session::new("dev");
    let r = run(&mut s, Service::Shell, "ls", b"FAIL", b"no such device").unwrap();
    assert!(!r.is_ok);
    assert_eq!(r.data, b"no such device".to_vec());
}

#[test]
fn connect_selects_target_even_when_refused() {
    let mut s = Session::new("127.0.0.1:7555");
    let a = s.begin(Service::Connect, "127.0.0.1:5555");
    assert_eq!(sent(a), b"001Dhost:transport:127.0.0.1:7555".to_vec());
    s.step(Event::Sent);
    let a = s.step(Event::Status(*b"OKAY"));
    assert_eq!(sent(a), b"001Bhost:connect:127.0.0.1:5555".to_vec());
    s.step(Event::Sent);
    s.step(Event::Status(*b"FAIL"));
    s.step(Event::Drained(b"failed to connect".to_vec()));
    let r = finished(s.step(Event::Redialed)).unwrap();
    assert!(!r.is_ok);
    assert_eq!(s.target(), "127.0.0.1:5555");
}

#[test]
fn two_shells_redial_twice() {
    let mut s = Session::new("dev");
    let mut redials = 0;
    for _ in 0..2 {
        let mut a = s.begin(Service::Shell, "true");
        let script = vec![
            Event::Sent,
            Event::Status(*b"OKAY"),
            Event::Sent,
            Event::Status(*b"OKAY"),
            Event::Drained(Vec::new()),
            Event::Redialed,
        ];
        for ev in script {
            if matches!(a, Action::Redial) {
                redials += 1;
            }
            a = s.step(ev);
        }
        assert!(finished(a).is_ok());
    }
    assert_eq!(redials, 2);
}

#[test]
fn transport_refusal_redials_then_fails() {
    let mut s = Session::new("dev");
    s.begin(Service::Shell, "ls");
    s.step(Event::Sent);
    assert!(matches!(s.step(Event::Status(*b"FAIL")), Action::Redial));
    match finished(s.step(Event::Redialed)) {
        Err(AGError::Custom(m)) => assert_eq!(m, "transport fail"),
        _ => panic!("expected transport fail"),
    }
    assert!(!s.is_busy());
}

#[test]
fn io_failure_redials_then_fails() {
    let mut s = Session::new("dev");
    s.begin(Service::Shell, "ls");
    assert!(matches!(s.step(Event::Failed(io_error())), Action::Redial));
    assert!(matches!(finished(s.step(Event::Redialed)), Err(AGError::Io(_))));
}

#[test]
fn failed_redial_dials_before_next_command() {
    let mut s = Session::new("dev");
    s.begin(Service::Shell, "ls");
    s.step(Event::Failed(io_error()));
    assert!(matches!(finished(s.step(Event::Failed(io_error()))), Err(AGError::Io(_))));
    assert!(!s.is_busy());
    assert!(matches!(s.begin(Service::Shell, "ls"), Action::Redial));
    let a = s.step(Event::Redialed);
    assert_eq!(sent(a), b"0012host:transport:dev".to_vec());
}

#[test]
fn unexpected_event_ends_command() {
    let mut s = Session::new("dev");
    s.begin(Service::Shell, "ls");
    assert!(matches!(s.step(Event::Drained(Vec::new())), Action::Redial));
    match finished(s.step(Event::Redialed)) {
        Err(AGError::Custom(m)) => assert_eq!(m, "event out of sequence"),
        _ => panic!("expected an out-of-sequence error"),
    }
}

#[test]
fn oversized_command_fails_before_sending() {
    let mut s = Session::new("dev");
    let cmd = "a".repeat(70000);
    assert!(matches!(s.begin(Service::Shell, &cmd), Action::Finish(Err(AGError::Custom(_)))));
    assert!(!s.is_busy());
}
