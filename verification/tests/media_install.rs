//! The install protocol from acceptance to its end.
use player_core::error::{PlayerError, PlayerErrorKind};
use player_core::media_install::playback_intent::{
    AcceptedPlaybackIntent, PlaybackIntent, PlaybackIntentRevision,
};
use player_core::media_install::{
    AcceptedMediaInstallTerminalError, AuthorizeInstallCommit, CancelMediaInstall,
    IdentityAllocator, MediaInstallCancellationCause, MediaInstallCommitPoint,
    MediaInstallCompletion, MediaInstallControl, MediaInstallControlOutcome, MediaInstallFailure,
    MediaInstallFailureStage, MediaInstallPhase, MediaInstallPhaseCompletionPort,
    MediaInstallProtocol, MediaInstallReceipt, MediaInstallReceiptSignal,
    MediaInstallReceiptWaitError, MediaInstallRequestId, MediaInstallSignalSlots, MediaInstanceId,
    RequestOwnedMediaInstallPort,
};

type Protocol = MediaInstallProtocol<RequestOwnedMediaInstallPort>;

fn test_request_id(raw_identity: u64) -> MediaInstallRequestId {
    MediaInstallRequestId::from_non_zero(raw_identity)
}

fn instance_id(raw_identity: u64) -> MediaInstanceId {
    MediaInstanceId::from_non_zero(raw_identity)
}

fn installed_commit(
    media_instance_id: MediaInstanceId,
) -> (MediaInstanceId, AcceptedPlaybackIntent) {
    (
        media_instance_id,
        AcceptedPlaybackIntent {
            revision: PlaybackIntentRevision::initial(),
            intent: PlaybackIntent::StartPaused,
        },
    )
}

fn accepted_protocol(request_id: MediaInstallRequestId) -> (Protocol, MediaInstallReceipt) {
    let (receipt, port) = MediaInstallReceipt::new(request_id);
    (MediaInstallProtocol::accept(request_id, port), receipt)
}

/// Waits until something was published, and takes it.
fn wait_for_signal(
    receipt: &MediaInstallReceipt,
    slots: &mut MediaInstallSignalSlots,
) -> Result<MediaInstallReceiptSignal, MediaInstallReceiptWaitError> {
    loop {
        if let Some(signal) = receipt.try_take_signal(slots) {
            return Ok(signal);
        }
        receipt.wait_for_wakeup()?;
    }
}

/// Waits until something was published, and leaves it there.
fn wait_until_signal_available(
    receipt: &MediaInstallReceipt,
    slots: &MediaInstallSignalSlots,
) -> Result<(), MediaInstallReceiptWaitError> {
    loop {
        if slots.has_signal() {
            return Ok(());
        }
        receipt.wait_for_wakeup()?;
    }
}

fn authorize(request_id: MediaInstallRequestId) -> MediaInstallControl {
    MediaInstallControl::Authorize(AuthorizeInstallCommit { request_id })
}

fn cancel(
    request_id: MediaInstallRequestId,
    cause: MediaInstallCancellationCause,
) -> MediaInstallControl {
    MediaInstallControl::Cancel(CancelMediaInstall { request_id, cause })
}

#[test]
fn synchronous_receipt_reports_missing_owner_instead_of_waiting_forever() {
    let (receipt, port) = MediaInstallReceipt::new(test_request_id(907));
    drop(port);
    let mut slots = MediaInstallSignalSlots::default();
    assert!(matches!(
        wait_for_signal(&receipt, &mut slots),
        Err(MediaInstallReceiptWaitError::MissingOwnerOutcome)
    ));
    assert!(receipt.try_take_ready_to_commit(&mut slots).is_none());
    assert!(receipt.try_take_completion(&mut slots).is_none());
}

#[test]
fn fallible_stage_inventory_and_future_atomic_commit_point_are_explicit() {
    assert_eq!(
        MediaInstallFailureStage::all(),
        [
            MediaInstallFailureStage::LegacyResetSeekFloor,
            MediaInstallFailureStage::LegacyResetDecoderFlush,
            MediaInstallFailureStage::LegacyResetDecoderStream,
            MediaInstallFailureStage::OpenTransition,
            MediaInstallFailureStage::AudioTrackPlanning,
            MediaInstallFailureStage::VideoStreamConfiguration,
            MediaInstallFailureStage::VideoPreflightTimeout,
            MediaInstallFailureStage::PlaybackWindowPreparation,
            MediaInstallFailureStage::PositionPreparation,
            MediaInstallFailureStage::CandidateVideoResourceAcquisition,
            MediaInstallFailureStage::CandidateVideoBackendMatching,
            MediaInstallFailureStage::CandidateVideoBackendConfiguration,
            MediaInstallFailureStage::CandidateVideoStatusPublication,
            MediaInstallFailureStage::LegacyMediaOpenedTransition,
        ]
    );
    let _future_commit_point = MediaInstallCommitPoint::ReplaceActiveOwnershipAndPublishInstalled;
}

#[test]
fn accepted_authorization_requires_exact_installed_terminal_as_fatal_invariant() {
    let request_id = test_request_id(80);
    let (missing_receipt, mut missing_port) = MediaInstallReceipt::new(request_id);
    assert_eq!(
        missing_receipt.take_required_installed_after_authorization(missing_port.slots_mut()),
        Err(AcceptedMediaInstallTerminalError::MissingInstalled { request_id })
    );

    let (unexpected_receipt, mut unexpected_port) = MediaInstallReceipt::new(request_id);
    unexpected_port.publish_terminal(MediaInstallCompletion::Cancelled {
        request_id,
        cause: MediaInstallCancellationCause::LifecycleShutdown,
    });
    assert!(matches!(
        unexpected_receipt
            .take_required_installed_after_authorization(unexpected_port.slots_mut()),
        Err(AcceptedMediaInstallTerminalError::UnexpectedCompletion(
            MediaInstallCompletion::Cancelled { .. }
        ))
    ));

    let installed_instance_id = instance_id(81);
    let (installed_receipt, install_port) = MediaInstallReceipt::new(request_id);
    let mut protocol = MediaInstallProtocol::accept(request_id, install_port);
    protocol.mark_ready_to_commit();
    assert_eq!(
        protocol.apply_control(authorize(request_id), || installed_commit(installed_instance_id)),
        MediaInstallControlOutcome::AuthorizationAccepted
    );
    assert_eq!(
        installed_receipt
            .take_required_installed_after_authorization(protocol.port_mut().slots_mut()),
        Ok(installed_instance_id)
    );
}

#[test]
fn command_acceptance_ready_and_installed_are_distinct_phases() {
    let request_id = test_request_id(1);
    let installed_instance_id = instance_id(11);
    let (mut protocol, receipt) = accepted_protocol(request_id);

    assert_eq!(receipt.try_take_ready_to_commit(protocol.port_mut().slots_mut()), None);
    assert_eq!(receipt.try_take_completion(protocol.port_mut().slots_mut()), None);

    protocol.mark_ready_to_commit();

    assert_eq!(
        receipt.try_take_ready_to_commit(protocol.port_mut().slots_mut()),
        Some(MediaInstallPhase::ReadyToCommit { request_id })
    );
    assert_eq!(receipt.try_take_completion(protocol.port_mut().slots_mut()), None);

    let outcome =
        protocol.apply_control(authorize(request_id), || installed_commit(installed_instance_id));

    assert_eq!(outcome, MediaInstallControlOutcome::AuthorizationAccepted);
    assert_eq!(
        receipt.try_take_completion(protocol.port_mut().slots_mut()),
        Some(MediaInstallCompletion::Installed {
            request_id,
            media_instance_id: installed_instance_id,
            applied_intent_revision: PlaybackIntentRevision::initial(),
            applied_intent: PlaybackIntent::StartPaused,
        })
    );
}

#[test]
fn authorization_requires_matching_ready_request_and_rejects_duplicates() {
    let request_id = test_request_id(2);
    let stale_request_id = test_request_id(3);
    let installed_instance_id = instance_id(12);
    let (mut protocol, receipt) = accepted_protocol(request_id);

    assert_eq!(
        protocol.apply_control(authorize(request_id), || installed_commit(installed_instance_id)),
        MediaInstallControlOutcome::NotReady
    );
    assert_eq!(
        protocol.apply_control(authorize(stale_request_id), || installed_commit(
            installed_instance_id
        )),
        MediaInstallControlOutcome::StaleRequest
    );

    protocol.mark_ready_to_commit();
    assert_eq!(
        protocol.apply_control(authorize(request_id), || installed_commit(installed_instance_id)),
        MediaInstallControlOutcome::AuthorizationAccepted
    );
    assert_eq!(
        protocol.apply_control(authorize(request_id), || panic!(
            "duplicate authorization must not run commit"
        )),
        MediaInstallControlOutcome::AlreadyTerminal
    );

    assert_eq!(
        receipt
            .try_take_completion(protocol.port_mut().slots_mut())
            .map(|completion| completion.request_id()),
        Some(request_id)
    );
}

#[test]
fn every_pre_barrier_cancellation_cause_remains_distinct() {
    let causes = [
        MediaInstallCancellationCause::UserCancelled,
        MediaInstallCancellationCause::Superseded,
        MediaInstallCancellationCause::TransportStop,
        MediaInstallCancellationCause::StructuralInvalidation,
        MediaInstallCancellationCause::LifecycleSuspended,
        MediaInstallCancellationCause::LifecycleShutdown,
    ];

    for (index, cause) in causes.into_iter().enumerate() {
        let request_id = test_request_id(index as u64 + 10);
        let (mut protocol, receipt) = accepted_protocol(request_id);
        protocol.mark_ready_to_commit();

        let outcome = protocol.apply_control(cancel(request_id, cause), || {
            panic!("cancellation must not commit an instance")
        });

        assert_eq!(outcome, MediaInstallControlOutcome::CancellationAccepted);
        assert_eq!(
            receipt.try_take_completion(protocol.port_mut().slots_mut()),
            Some(MediaInstallCompletion::Cancelled { request_id, cause })
        );
    }
}

#[test]
fn authorize_and_each_cancel_cause_follow_ordered_winner() {
    let causes = [
        MediaInstallCancellationCause::UserCancelled,
        MediaInstallCancellationCause::Superseded,
        MediaInstallCancellationCause::TransportStop,
        MediaInstallCancellationCause::StructuralInvalidation,
        MediaInstallCancellationCause::LifecycleSuspended,
        MediaInstallCancellationCause::LifecycleShutdown,
    ];

    for (index, cause) in causes.into_iter().enumerate() {
        let cancel_first_request_id = test_request_id(index as u64 + 30);
        let (mut cancel_first, cancel_first_receipt) = accepted_protocol(cancel_first_request_id);
        cancel_first.mark_ready_to_commit();
        assert_eq!(
            cancel_first.apply_control(cancel(cancel_first_request_id, cause), || panic!(
                "cancel-first ordering must not commit"
            )),
            MediaInstallControlOutcome::CancellationAccepted
        );
        assert_eq!(
            cancel_first.apply_control(authorize(cancel_first_request_id), || panic!(
                "late authorization must not commit"
            )),
            MediaInstallControlOutcome::AlreadyTerminal
        );
        assert!(matches!(
            cancel_first_receipt.try_take_completion(cancel_first.port_mut().slots_mut()),
            Some(MediaInstallCompletion::Cancelled {
                cause: terminal_cause,
                ..
            }) if terminal_cause == cause
        ));

        let authorize_first_request_id = test_request_id(index as u64 + 50);
        let installed_instance_id = instance_id(index as u64 + 70);
        let (mut authorize_first, authorize_first_receipt) =
            accepted_protocol(authorize_first_request_id);
        authorize_first.mark_ready_to_commit();
        assert_eq!(
            authorize_first.apply_control(authorize(authorize_first_request_id), || {
                installed_commit(installed_instance_id)
            }),
            MediaInstallControlOutcome::AuthorizationAccepted
        );
        assert_eq!(
            authorize_first.apply_control(cancel(authorize_first_request_id, cause), || panic!(
                "late cancellation must not re-run commit"
            )),
            MediaInstallControlOutcome::AlreadyTerminal
        );
        assert!(matches!(
            authorize_first_receipt.try_take_completion(authorize_first.port_mut().slots_mut()),
            Some(MediaInstallCompletion::Installed {
                media_instance_id,
                ..
            }) if media_instance_id == installed_instance_id
        ));
    }
}

#[test]
fn terminal_slot_is_lossless_and_drains_exactly_once() {
    let request_id = test_request_id(90);
    let failure = MediaInstallFailure::new(
        MediaInstallFailureStage::VideoStreamConfiguration,
        PlayerError::new(PlayerErrorKind::UnsupportedVideoCodec, "test rejection".to_string()),
    );
    let (mut protocol, receipt) = accepted_protocol(request_id);

    protocol.complete_failed(failure.clone());

    assert_eq!(
        receipt.try_take_completion(protocol.port_mut().slots_mut()),
        Some(MediaInstallCompletion::Failed { request_id, failure })
    );
    assert_eq!(receipt.try_take_completion(protocol.port_mut().slots_mut()), None);
}

#[test]
fn receipts_keep_request_and_completion_correlation_separate() {
    let first_request_id = test_request_id(91);
    let second_request_id = test_request_id(92);
    let (mut first_protocol, first_receipt) = accepted_protocol(first_request_id);
    let (mut second_protocol, second_receipt) = accepted_protocol(second_request_id);

    first_protocol.complete_failed(MediaInstallFailure::new(
        MediaInstallFailureStage::OpenTransition,
        PlayerError::new(PlayerErrorKind::DemuxError, "first".to_string()),
    ));
    second_protocol.complete_failed(MediaInstallFailure::new(
        MediaInstallFailureStage::OpenTransition,
        PlayerError::new(PlayerErrorKind::DemuxError, "second".to_string()),
    ));

    assert_eq!(first_receipt.request_id(), first_request_id);
    assert_eq!(second_receipt.request_id(), second_request_id);
    assert_eq!(
        first_receipt
            .try_take_completion(first_protocol.port_mut().slots_mut())
            .expect("first completion")
            .request_id(),
        first_request_id
    );
    assert_eq!(
        second_receipt
            .try_take_completion(second_protocol.port_mut().slots_mut())
            .expect("second completion")
            .request_id(),
        second_request_id
    );
}

#[test]
fn synchronous_receipt_wait_reports_missing_owner_without_timeout_success() {
    let request_id = test_request_id(905);
    let (receipt, owner_port) = MediaInstallReceipt::new(request_id);
    drop(owner_port);

    assert_eq!(
        wait_until_signal_available(&receipt, &MediaInstallSignalSlots::default()),
        Err(MediaInstallReceiptWaitError::MissingOwnerOutcome)
    );
}

#[test]
fn synchronous_receipt_preserves_ready_before_already_published_terminal() {
    let request_id = test_request_id(906);
    let installed_instance_id = instance_id(906);
    let (mut protocol, receipt) = accepted_protocol(request_id);

    protocol.mark_ready_to_commit();
    assert_eq!(
        protocol.apply_control(authorize(request_id), || installed_commit(installed_instance_id)),
        MediaInstallControlOutcome::AuthorizationAccepted
    );

    assert!(matches!(
        wait_for_signal(&receipt, protocol.port_mut().slots_mut())
            .expect("the ready phase is kept"),
        MediaInstallReceiptSignal::ReadyToCommit(MediaInstallPhase::ReadyToCommit {
            request_id: ready_request_id,
        }) if ready_request_id == request_id
    ));
    assert!(matches!(
        wait_for_signal(&receipt, protocol.port_mut().slots_mut())
            .expect("the installation follows the ready phase"),
        MediaInstallReceiptSignal::Terminal(MediaInstallCompletion::Installed {
            request_id: installed_request_id,
            media_instance_id,
            ..
        }) if installed_request_id == request_id && media_instance_id == installed_instance_id
    ));
}

#[test]
fn a_publication_wakes_the_receipt_once() {
    let (mut protocol, receipt) = accepted_protocol(test_request_id(5));
    protocol.mark_ready_to_commit();
    assert_eq!(receipt.wait_for_wakeup(), Ok(()));
    drop(protocol);
    assert_eq!(
        receipt.wait_for_wakeup(),
        Err(MediaInstallReceiptWaitError::MissingOwnerOutcome)
    );
}

#[test]
fn an_installation_of_another_request_is_a_mismatch() {
    let (receipt, mut port) = MediaInstallReceipt::new(test_request_id(7));
    port.publish_terminal(MediaInstallCompletion::Installed {
        request_id: test_request_id(8),
        media_instance_id: instance_id(9),
        applied_intent_revision: PlaybackIntentRevision::initial(),
        applied_intent: PlaybackIntent::StartPlaying,
    });
    let error = receipt
        .take_required_installed_after_authorization(port.slots_mut())
        .expect_err("another request was installed");
    assert_eq!(
        error,
        AcceptedMediaInstallTerminalError::InstalledRequestMismatch {
            expected_request_id: test_request_id(7),
            installed_request_id: test_request_id(8),
        }
    );
}

#[test]
fn identities_ascend_from_one() {
    let mut allocator = IdentityAllocator::new();
    let first = MediaInstallRequestId::new_unique(&mut allocator);
    let second = MediaInstanceId::new_unique(&mut allocator);
    assert_eq!((first.get(), second.get()), (1, 2));
    assert_eq!(test_request_id(1205).display(), "1205");
    assert!(!allocator.is_exhausted());
}

#[test]
fn identities_are_told_apart_and_ordered_by_their_numbers() {
    assert_eq!(test_request_id(4), test_request_id(4));
    assert_ne!(test_request_id(4), test_request_id(5));
    assert!(test_request_id(9) < test_request_id(10));
    assert_eq!(instance_id(4), instance_id(4));
    assert!(instance_id(10) > instance_id(9));
    assert_eq!(instance_id(10).min(instance_id(9)), instance_id(9));
}

#[test]
fn clones_of_a_receipt_wait_at_one_bell() {
    let (mut protocol, receipt) = accepted_protocol(test_request_id(6));
    let second = receipt.clone();
    assert_eq!(second.request_id(), test_request_id(6));
    protocol.mark_ready_to_commit();
    assert_eq!(second.wait_for_wakeup(), Ok(()));
    drop(protocol);
    assert_eq!(
        receipt.wait_for_wakeup(),
        Err(MediaInstallReceiptWaitError::MissingOwnerOutcome)
    );
}

#[test]
fn an_owner_that_keeps_the_slots_elsewhere_wakes_the_same_receipt() {
    let (receipt, port) = MediaInstallReceipt::new(test_request_id(11));
    let (mut slots, waker) = port.into_parts();
    let phase = MediaInstallPhase::ReadyToCommit { request_id: test_request_id(11) };
    waker.publish_ready_to_commit(&mut slots, phase);
    waker.publish_terminal(
        &mut slots,
        MediaInstallCompletion::Cancelled {
            request_id: test_request_id(11),
            cause: MediaInstallCancellationCause::LifecycleShutdown,
        },
    );
    assert_eq!(receipt.wait_for_wakeup(), Ok(()));
    assert_eq!(
        receipt.try_take_signal(&mut slots),
        Some(MediaInstallReceiptSignal::ReadyToCommit(phase))
    );
    assert!(matches!(
        receipt.try_take_signal(&mut slots),
        Some(MediaInstallReceiptSignal::Terminal(_))
    ));
    drop(waker);
    assert_eq!(
        receipt.wait_for_wakeup(),
        Err(MediaInstallReceiptWaitError::MissingOwnerOutcome)
    );
}
