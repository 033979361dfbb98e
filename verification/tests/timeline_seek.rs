//! Receipts of timeline seeks.
use crossbeam_channel::{bounded, Sender};
use player_core::media::MediaTime;
use player_core::media_install::timeline_seek::{
    ExactTimelineSeekOutcome, ExactTimelineSeekReceipt, ExactTimelineSeekReceiptError,
    ExactTimelineSeekRequest, TimelineSeekKind, TimelineSeekRequestId,
};
use player_core::media_install::MediaInstanceId;
use std::time::{Duration, Instant};

fn receipt() -> (
    Sender<ExactTimelineSeekOutcome>,
    ExactTimelineSeekReceipt,
    ExactTimelineSeekRequest,
) {
    let request = ExactTimelineSeekRequest {
        request_id: TimelineSeekRequestId::new(1),
        media_instance_id: MediaInstanceId::from_non_zero(1),
        target: MediaTime::zero(),
        kind: TimelineSeekKind::SetPosition,
    };
    let (outcome_tx, outcome_rx) = bounded(1);
    let receipt =
        ExactTimelineSeekReceipt::new(request.request_id, request.media_instance_id, outcome_rx);
    (outcome_tx, receipt, request)
}

#[test]
fn bounded_wait_returns_terminal_owner_outcome() {
    let (outcome_tx, receipt, request) = receipt();
    let expected = ExactTimelineSeekOutcome::Applied {
        request_id: request.request_id,
        media_instance_id: request.media_instance_id,
        position: request.target,
    };
    outcome_tx.send(expected.clone()).expect("the receipt is connected");

    assert_eq!(
        receipt.wait_for_outcome_until(Instant::now() + Duration::from_secs(1)),
        Ok(expected)
    );
}

#[test]
fn bounded_wait_distinguishes_deadline_from_missing_owner() {
    let (outcome_tx, receipt, _request) = receipt();

    assert_eq!(
        receipt.wait_for_outcome_until(Instant::now()),
        Err(ExactTimelineSeekReceiptError::DeadlineElapsed)
    );

    drop(outcome_tx);
    assert_eq!(
        receipt.wait_for_outcome_until(Instant::now() + Duration::from_secs(1)),
        Err(ExactTimelineSeekReceiptError::MissingOwnerOutcome)
    );
}

#[test]
fn an_attempt_tells_nothing_yet_from_a_missing_owner() {
    let (outcome_tx, receipt, request) = receipt();
    assert_eq!(receipt.try_take_outcome(), Ok(None));

    let expected = ExactTimelineSeekOutcome::Applied {
        request_id: request.request_id,
        media_instance_id: request.media_instance_id,
        position: MediaTime::from_secs(3),
    };
    outcome_tx.send(expected.clone()).expect("the receipt is connected");
    assert_eq!(receipt.try_take_outcome(), Ok(Some(expected)));

    drop(outcome_tx);
    assert_eq!(
        receipt.try_take_outcome(),
        Err(ExactTimelineSeekReceiptError::MissingOwnerOutcome)
    );
    assert_eq!(receipt.request_id().get(), 1);
    assert_eq!(receipt.media_instance_id().get(), 1);
}
