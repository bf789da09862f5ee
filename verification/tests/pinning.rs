use filepin::file_state::FileStatus;
use filepin::file_state::WatchedFile;
use filepin::file_state::handle_change;
use filepin::interest::ChangeKind;
use filepin::interest::full_interest;
use filepin::monitor::Monitor;
use filepin::monitor::MonitorState;
use filepin::monitor::WaitOutcome;
use filepin::monitor::WakeAction;
use filepin::monitor::WriteDecision;
use filepin::monitor::WritePolicy;
use filepin::monitor::on_validation;
use filepin::monitor::on_wait_result;
use filepin::monitor::on_write_result;

fn regular(content: &[u8]) -> WatchedFile {
    WatchedFile::Regular { content: content.to_vec() }
}

fn content_of(file: &WatchedFile) -> Vec<u8> {
    file.content().expect("expected a regular file").clone()
}

#[test]
fn corrects_garbage_content_to_payload() {
    let payload = b"HELLO".to_vec();
    let mut monitor = Monitor::new(payload);
    let mut file = regular(b"garbage-content-12345");

    // An external process appends one byte, which fires a write/extend event.
    match &mut file {
        WatchedFile::Regular { content } => content.push(b'!'),
        _ => unreachable!(),
    }

    let wrote = monitor.step(WaitOutcome::Events { count: 1 }, &mut file);
    assert!(wrote);
    assert_eq!(content_of(&file), b"HELLO".to_vec());
    assert_eq!(content_of(&file).len(), 5);
    assert_eq!(monitor.state, MonitorState::Waiting);
}

#[test]
fn skips_when_file_vanishes() {
    // The file is deleted just after the event fires, before validation.
    let mut monitor = Monitor::new(b"HELLO".to_vec());
    let mut file = WatchedFile::Absent;

    let wrote = monitor.step(WaitOutcome::Events { count: 1 }, &mut file);
    assert!(!wrote);
    assert_eq!(file.status(), FileStatus::Missing);
    assert_eq!(monitor.state, MonitorState::Waiting);

    // The process keeps waiting; a later event on a recreated file is handled.
    let mut recreated = regular(b"scribbled");
    let wrote_again = monitor.step(WaitOutcome::Events { count: 1 }, &mut recreated);
    assert!(wrote_again);
    assert_eq!(content_of(&recreated), b"HELLO".to_vec());
}

#[test]
fn correction_is_idempotent() {
    let payload = b"pinned".to_vec();
    let mut file = regular(b"anything at all");

    let first = handle_change(&mut file, &payload);
    assert!(first);
    assert_eq!(content_of(&file), payload);

    let second = handle_change(&mut file, &payload);
    assert!(second);
    assert_eq!(content_of(&file), payload);
}

#[test]
fn no_write_on_type_mismatch() {
    let payload = b"HELLO".to_vec();
    let mut file = WatchedFile::NonRegular;

    let wrote = handle_change(&mut file, &payload);
    assert!(!wrote);
    assert_eq!(file.status(), FileStatus::NotRegular);
    assert!(file.content().is_none());
}

#[test]
fn no_write_when_absent() {
    let payload = b"HELLO".to_vec();
    let mut file = WatchedFile::Absent;

    let wrote = handle_change(&mut file, &payload);
    assert!(!wrote);
    assert_eq!(file.status(), FileStatus::Missing);
    assert!(file.content().is_none());
}

#[test]
fn truncates_longer_content() {
    let payload = b"HELLO".to_vec();
    let mut file = regular(b"a much longer pre-existing content with trailing bytes");

    let wrote = handle_change(&mut file, &payload);
    assert!(wrote);
    let bytes = content_of(&file);
    assert_eq!(bytes.len(), payload.len());
    assert_eq!(bytes, payload);
}

#[test]
fn wait_error_terminates_without_write() {
    let mut monitor = Monitor::new(b"HELLO".to_vec());
    let mut file = regular(b"untouched");

    let wrote = monitor.step(WaitOutcome::Failed, &mut file);
    assert!(!wrote);
    assert_eq!(monitor.state, MonitorState::Terminated);
    assert_eq!(content_of(&file), b"untouched".to_vec());
}

#[test]
fn spurious_wake_rewaits() {
    let mut monitor = Monitor::new(b"HELLO".to_vec());
    let mut file = regular(b"untouched");

    let wrote = monitor.step(WaitOutcome::Events { count: 0 }, &mut file);
    assert!(!wrote);
    assert_eq!(monitor.state, MonitorState::Waiting);
    assert_eq!(content_of(&file), b"untouched".to_vec());
}

#[test]
fn wake_action_mapping() {
    assert_eq!(on_wait_result(WaitOutcome::Events { count: 3 }), WakeAction::Validate);
    assert_eq!(on_wait_result(WaitOutcome::Events { count: 1 }), WakeAction::Validate);
    assert_eq!(on_wait_result(WaitOutcome::Events { count: 0 }), WakeAction::Rewait);
    assert_eq!(on_wait_result(WaitOutcome::Failed), WakeAction::Shutdown);
}

#[test]
fn validation_decision() {
    assert_eq!(on_validation(FileStatus::Regular), WriteDecision::Overwrite);
    assert_eq!(on_validation(FileStatus::Missing), WriteDecision::Skip);
    assert_eq!(on_validation(FileStatus::NotRegular), WriteDecision::Skip);
}

#[test]
fn write_failure_aborts() {
    assert_eq!(on_write_result(true), WritePolicy::Proceed);
    assert_eq!(on_write_result(false), WritePolicy::Abort);
}

#[test]
fn full_interest_covers_every_kind() {
    let mask = full_interest();
    assert!(mask.covers(ChangeKind::Write));
    assert!(mask.covers(ChangeKind::Extend));
    assert!(mask.covers(ChangeKind::Attrib));
    assert!(mask.covers(ChangeKind::Rename));
    assert!(mask.covers(ChangeKind::Delete));
}

#[test]
fn status_reports_each_variant() {
    assert_eq!(WatchedFile::Absent.status(), FileStatus::Missing);
    assert_eq!(WatchedFile::NonRegular.status(), FileStatus::NotRegular);
    assert_eq!(regular(b"x").status(), FileStatus::Regular);
}

#[test]
fn monitor_holds_payload() {
    let monitor = Monitor::new(b"HELLO".to_vec());
    assert_eq!(monitor.payload().clone(), b"HELLO".to_vec());
    assert_eq!(monitor.state, MonitorState::Waiting);
}
