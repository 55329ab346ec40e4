use datesort::pipeline::Pipeline;
use datesort::relocate::{FailureReason, RelocationResult};

#[test]
fn a_complete_run_accounts_for_every_item() {
    // Three files discovered, all moved: the scenario with a.txt, b.txt and
    // sub/c.txt. The summary reports three successes and no failure.
    let mut p = Pipeline::new(100);
    for _ in 0..3 {
        assert!(p.can_send());
        p.on_send();
    }
    p.on_close();
    for _ in 0..3 {
        p.on_receive();
        p.on_result(&RelocationResult::Success);
    }
    assert!(p.is_complete());
    assert_eq!(p.succeeded, 3);
    assert_eq!(p.skipped, 0);
    assert_eq!(p.failed, 0);
    assert_eq!(p.succeeded + p.skipped + p.failed, p.emitted);
}

#[test]
fn one_failing_item_does_not_stop_the_run() {
    // One file's metadata read fails mid-run; the run still completes and
    // the remaining files are processed.
    let mut p = Pipeline::new(4);
    for _ in 0..3 {
        p.on_send();
    }
    p.on_close();
    p.on_receive();
    p.on_result(&RelocationResult::Failed(FailureReason::MetadataError));
    p.on_receive();
    p.on_result(&RelocationResult::Success);
    p.on_receive();
    p.on_result(&RelocationResult::Success);
    assert!(p.is_complete());
    assert_eq!(p.failed, 1);
    assert_eq!(p.succeeded, 2);
    assert_eq!(p.succeeded + p.skipped + p.failed, p.emitted);
}

#[test]
fn every_outcome_lands_in_exactly_one_counter() {
    let mut p = Pipeline::new(8);
    for _ in 0..4 {
        p.on_send();
        p.on_receive();
    }
    p.on_result(&RelocationResult::Success);
    p.on_result(&RelocationResult::SkippedUndatable);
    p.on_result(&RelocationResult::Failed(FailureReason::DirectoryCreationError));
    p.on_result(&RelocationResult::Failed(FailureReason::RenameError));
    p.on_close();
    assert!(p.is_complete());
    assert_eq!(p.succeeded, 1);
    assert_eq!(p.skipped, 1);
    assert_eq!(p.failed, 2);
    assert_eq!(p.emitted, 4);
}

#[test]
fn a_full_channel_suspends_the_traverser() {
    // Capacity one and a slow execution layer: after one buffered item the
    // traverser may not emit, and the buffered count never exceeds the
    // capacity.
    let mut p = Pipeline::new(1);
    assert!(p.can_send());
    p.on_send();
    assert!(!p.can_send());
    assert!(p.in_channel <= p.capacity);
    p.on_receive();
    assert!(p.can_send());
    p.on_send();
    assert!(!p.can_send());
    assert!(p.in_channel <= p.capacity);
    p.on_receive();
    p.on_result(&RelocationResult::Success);
    p.on_result(&RelocationResult::Success);
    p.on_close();
    assert!(p.is_complete());
    assert_eq!(p.emitted, 2);
}

#[test]
fn a_closed_channel_accepts_nothing_more() {
    let mut p = Pipeline::new(5);
    p.on_send();
    p.on_close();
    assert!(!p.can_send());
    assert!(!p.is_complete());
    p.on_receive();
    p.on_result(&RelocationResult::Success);
    assert!(p.is_complete());
}

#[test]
fn cancellation_stops_emission_and_reports_the_rest() {
    let mut p = Pipeline::new(10);
    for _ in 0..5 {
        p.on_send();
    }
    p.on_receive();
    p.on_receive();
    p.on_cancel();
    // Nothing more is emitted after the signal.
    assert!(!p.can_send());
    // The two dispatched jobs finish rather than abort.
    p.on_result(&RelocationResult::Success);
    p.on_result(&RelocationResult::Failed(FailureReason::RenameError));
    // The three never-dispatched items are reported as unprocessed.
    assert_eq!(p.unprocessed(), 3);
    assert_eq!(p.unprocessed() + p.succeeded + p.skipped + p.failed, p.emitted);
}
