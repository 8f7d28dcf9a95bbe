//! Registry lifecycle: duplicate starts and unknown or repeated stops.
use media_capture::RecordingError;
use media_capture::RecordingSessionMeta;
use media_capture::SessionRegistry;

fn meta(id: &str) -> RecordingSessionMeta {
    RecordingSessionMeta {
        id: String::from(id),
        filepath: format!("/tmp/{id}.opus"),
        sample_rate: 48000,
        channels: 1,
        started_at: 0,
    }
}

#[test]
fn duplicate_start_fails_and_first_stays_stoppable() {
    let mut r = SessionRegistry::new();
    assert!(r.insert(meta("a")).is_ok());
    let second = r.insert(meta("a"));
    match second {
        Err(RecordingError::Start(m)) => assert_eq!(m, "duplicate recording id"),
        _ => panic!("duplicate insert must fail with the start error"),
    }
    assert_eq!(r.len(), 1);
    assert!(r.is_active(&String::from("a")));
    let stopped = r.remove(&String::from("a")).unwrap();
    assert_eq!(stopped.id, "a");
    assert_eq!(r.len(), 0);
}

#[test]
fn stop_of_unknown_id_fails_not_found() {
    let mut r = SessionRegistry::new();
    match r.remove(&String::from("ghost")) {
        Err(RecordingError::NotFound) => {}
        _ => panic!("stopping an unknown id must fail with not-found"),
    }
}

#[test]
fn stop_twice_fails_not_found() {
    let mut r = SessionRegistry::new();
    assert!(r.insert(meta("a")).is_ok());
    assert!(r.remove(&String::from("a")).is_ok());
    match r.remove(&String::from("a")) {
        Err(RecordingError::NotFound) => {}
        _ => panic!("a second stop of the same id must fail with not-found"),
    }
}

#[test]
fn independent_ids_do_not_interfere() {
    let mut r = SessionRegistry::new();
    assert!(r.insert(meta("a")).is_ok());
    assert!(r.insert(meta("b")).is_ok());
    assert_eq!(r.len(), 2);
    assert!(r.remove(&String::from("a")).is_ok());
    assert!(r.is_active(&String::from("b")));
    assert!(!r.is_active(&String::from("a")));
    let b = r.remove(&String::from("b")).unwrap();
    assert_eq!(b.filepath, "/tmp/b.opus");
}
