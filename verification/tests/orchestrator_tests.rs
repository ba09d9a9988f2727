use mp1_patcher::errors::{ObserverError, PatchError};
use mp1_patcher::orchestrator::{FailureKind, OpState, PatchOperation};
use mp1_patcher::progress::{deliver, deliver_all, ProgressEvent, ProgressObserver};

/// A test observer that records every callback it receives, in order,
/// and raises a failure on the callbacks it was told to fail.
struct SpyObserver {
    received: Vec<String>,
    fail_on_writing_header: bool,
}

impl SpyObserver {
    fn new(fail_on_writing_header: bool) -> SpyObserver {
        SpyObserver {
            received: Vec::new(),
            fail_on_writing_header,
        }
    }
}

impl ProgressObserver for SpyObserver {
    fn notify_total_bytes(&mut self, total: usize) -> Result<(), ObserverError> {
        self.received.push(format!("total_bytes({total})"));
        Ok(())
    }

    fn notify_writing_file(&mut self, name: &Vec<u8>, size: usize) -> Result<(), ObserverError> {
        self.received
            .push(format!("writing_file({name:?}, {size})"));
        Ok(())
    }

    fn notify_writing_header(&mut self) -> Result<(), ObserverError> {
        self.received.push("writing_header".to_owned());
        if self.fail_on_writing_header {
            Err(ObserverError {
                message: "observer raised".to_owned(),
            })
        } else {
            Ok(())
        }
    }

    fn notify_flushing_to_disk(&mut self) -> Result<(), ObserverError> {
        self.received.push("flushing_to_disk".to_owned());
        Ok(())
    }
}

fn sample_events() -> Vec<ProgressEvent> {
    vec![
        ProgressEvent::TotalBytesKnown(4096),
        ProgressEvent::WritingFile(b"Metroid1.pak".to_vec(), 1024),
        ProgressEvent::WritingHeader,
        ProgressEvent::FlushingToDisk,
    ]
}

#[test]
fn deliver_invokes_exactly_the_matching_callback() {
    let mut spy = SpyObserver::new(false);
    assert_eq!(deliver(&mut spy, &ProgressEvent::TotalBytesKnown(7)), None);
    assert_eq!(
        deliver(
            &mut spy,
            &ProgressEvent::WritingFile(b"opening.bnr".to_vec(), 96)
        ),
        None
    );
    assert_eq!(deliver(&mut spy, &ProgressEvent::WritingHeader), None);
    assert_eq!(deliver(&mut spy, &ProgressEvent::FlushingToDisk), None);
    assert_eq!(
        spy.received,
        vec![
            "total_bytes(7)".to_owned(),
            format!("writing_file({:?}, 96)", b"opening.bnr".to_vec()),
            "writing_header".to_owned(),
            "flushing_to_disk".to_owned(),
        ]
    );
}

#[test]
fn observer_failure_does_not_prevent_later_deliveries() {
    let mut raising = SpyObserver::new(true);
    let events = sample_events();
    let record = deliver_all(&mut raising, &events);
    // One record per event: the failure on writing_header was isolated
    // and flushing_to_disk was still delivered after it.
    assert_eq!(record.len(), events.len());
    assert_eq!(record[0], None);
    assert_eq!(record[1], None);
    assert_eq!(
        record[2],
        Some(ObserverError {
            message: "observer raised".to_owned()
        })
    );
    assert_eq!(record[3], None);
    assert_eq!(raising.received.len(), 4);
    assert_eq!(raising.received[2], "writing_header");
    assert_eq!(raising.received[3], "flushing_to_disk");
}

#[test]
fn observer_failure_does_not_change_the_outcome() {
    let events = sample_events();

    let run = |fail_on_writing_header: bool,
               engine_result: Result<(), String>|
     -> (OpState, Result<(), PatchError>) {
        let mut spy = SpyObserver::new(fail_on_writing_header);
        let mut op = PatchOperation::new();
        op.validate_config(Ok(())).unwrap();
        op.start_patching();
        for event in &events {
            op.deliver_event(&mut spy, event);
        }
        let outcome = op.finish(engine_result);
        assert_eq!(spy.received.len(), events.len());
        (op.state, outcome)
    };

    let quiet = run(false, Ok(()));
    let raising = run(true, Ok(()));
    assert_eq!(quiet, raising);
    assert_eq!(quiet.0, OpState::Completed);
    assert_eq!(quiet.1, Ok(()));

    let quiet = run(false, Err("engine failed".to_owned()));
    let raising = run(true, Err("engine failed".to_owned()));
    assert_eq!(quiet, raising);
    assert_eq!(quiet.0, OpState::Failed(FailureKind::Runtime));
    assert_eq!(quiet.1, Err(PatchError::Runtime("engine failed".to_owned())));
}

#[test]
fn malformed_config_is_validation_error_with_zero_callbacks() {
    let mut spy = SpyObserver::new(false);
    let mut op = PatchOperation::new();
    // The external parser rejects a malformed document (e.g. an empty
    // string) with a message; the operation fails before patching.
    let outcome = op.validate_config(Err("EOF while parsing a value".to_owned()));
    assert_eq!(
        outcome,
        Err(PatchError::InvalidConfig(
            "EOF while parsing a value".to_owned()
        ))
    );
    assert_eq!(op.state, OpState::Failed(FailureKind::Validation));
    // Patching was never entered, so the observer saw nothing.
    assert_eq!(spy.received.len(), 0);
    assert!(spy.received.is_empty());
}

#[test]
fn engine_failure_is_runtime_error_with_message_unmodified() {
    let mut op = PatchOperation::new();
    op.validate_config(Ok(())).unwrap();
    op.start_patching();
    let outcome = op.finish(Err("failed to write file system".to_owned()));
    assert_eq!(
        outcome,
        Err(PatchError::Runtime("failed to write file system".to_owned()))
    );
    assert_eq!(op.state, OpState::Failed(FailureKind::Runtime));
}

#[test]
fn successful_run_completes() {
    let mut spy = SpyObserver::new(false);
    let mut op = PatchOperation::new();
    assert_eq!(op.state, OpState::Idle);
    op.validate_config(Ok(())).unwrap();
    assert_eq!(op.state, OpState::ConfigValidated);
    op.start_patching();
    assert_eq!(op.state, OpState::Patching);
    assert_eq!(op.deliver_event(&mut spy, &ProgressEvent::WritingHeader), None);
    assert_eq!(op.state, OpState::Patching);
    assert_eq!(op.finish(Ok(())), Ok(()));
    assert_eq!(op.state, OpState::Completed);
}
