use sotto::errors::Error;
use sotto::session::end_recording;
use sotto::session::normalize_join_outcome;
use sotto::session::worker_conclude;
use sotto::session::SessionStore;
use sotto::session::StateKind;

#[test]
fn full_session_with_second_begin_refused() {
    let mut store = SessionStore::new();
    assert_eq!(store.state_kind(), StateKind::Idle);
    let rx = store.try_begin().expect("begin should succeed from idle");
    assert_eq!(store.state_kind(), StateKind::Recording);
    // A second begin while the first session is still active.
    let second = store.try_begin();
    assert!(matches!(second, Err(Error::AlreadyDictating)));
    assert_eq!(store.state_kind(), StateKind::Recording);
    // End the recording: the capture operation's receiver resolves.
    end_recording(&mut store).expect("end should succeed while recording");
    assert_eq!(store.state_kind(), StateKind::Transcribing);
    assert!(rx.blocking_recv().is_ok());
    // The worker finishes with the mocked transcript.
    let out = worker_conclude(&mut store, Ok("hello world".to_string()));
    assert_eq!(out.unwrap(), "hello world");
    assert_eq!(store.state_kind(), StateKind::Idle);
}

#[test]
fn end_without_begin_is_refused() {
    let mut store = SessionStore::new();
    let r = end_recording(&mut store);
    assert!(matches!(r, Err(Error::NotDictating)));
    assert_eq!(store.state_kind(), StateKind::Idle);
}

#[test]
fn end_cannot_happen_twice() {
    let mut store = SessionStore::new();
    let rx = store.try_begin().unwrap();
    end_recording(&mut store).unwrap();
    let again = end_recording(&mut store);
    assert!(matches!(again, Err(Error::NotDictating)));
    assert_eq!(store.state_kind(), StateKind::Transcribing);
    drop(rx);
}

#[test]
fn sender_is_moved_out_exactly_once() {
    let mut store = SessionStore::new();
    let rx = store.try_begin().unwrap();
    let sender = store.try_end().expect("first end obtains the sender");
    assert!(matches!(store.try_end(), Err(Error::NotDictating)));
    // Firing consumes the sender; the receiver sees the signal.
    assert!(sender.send(()).is_ok());
    assert!(rx.blocking_recv().is_ok());
}

#[test]
fn capture_failure_resets_and_next_begin_succeeds() {
    let mut store = SessionStore::new();
    let rx = store.try_begin().unwrap();
    // The capture collaborator fails immediately; the worker concludes with
    // that error, which is surfaced, not lost.
    let out = worker_conclude(&mut store, Err(Error::NoInputDevice));
    assert!(matches!(out, Err(Error::NoInputDevice)));
    assert_eq!(store.state_kind(), StateKind::Idle);
    // Resetting dropped the held sender: the receiver observes an implicit
    // cancellation rather than blocking forever.
    assert!(rx.blocking_recv().is_err());
    // A fresh session can begin at once.
    assert!(store.try_begin().is_ok());
}

#[test]
fn worker_crash_is_normalized() {
    let j = normalize_join_outcome(Err("task panicked".to_string()));
    match j {
        Err(Error::DictationTaskPanicked { message }) => assert_eq!(message, "task panicked"),
        other => panic!("unexpected outcome: {:?}", other),
    }
}

#[test]
fn worker_report_passes_through() {
    let j = normalize_join_outcome(Ok(Ok("text".to_string())));
    assert_eq!(j.unwrap(), "text");
    let j2 = normalize_join_outcome(Ok(Err(Error::NoInputDevice)));
    assert!(matches!(j2, Err(Error::NoInputDevice)));
}
