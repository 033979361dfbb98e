//! Commands, texts of errors, settings and receipts.
use crossbeam_channel::bounded;
use player_core::audio_boundary::{missing_audio_decoder_factory, missing_audio_output_factory};
use player_core::command::{
    MediaOpenRequest, MediaSource, PlayerCommand, ScrubCommitPolicy, SeekRequest, SeekTarget,
};
use player_core::error::{PlayerError, PlayerErrorKind};
use player_core::media::{MediaTime, TrackId};
use player_core::media_install::exact_media_transport::{
    ExactMediaTransportOutcome, ExactMediaTransportReceipt, ExactMediaTransportReceiptError,
};
use player_core::media_install::installed_media_release::{
    InstalledMediaReleaseOutcome, InstalledMediaReleaseReceipt, InstalledMediaReleaseReceiptError,
};
use player_core::media_install::installed_state_restore::{
    InstalledMediaStateRestoreOutcome, InstalledMediaStateRestoreReceipt,
    InstalledMediaStateRestoreReceiptError,
};
use player_core::media_install::position_preparation::MediaInstallProtocolState;
use player_core::media_install::video_resource::{
    DetachedVideoBackendReply, DetachedVideoBackendRequest, DetachedVideoBackendResourcePort,
    MediaInstallVideoBackendConstraint, MediaInstallVideoResourcePort,
};
use player_core::media_install::{
    AcceptedMediaInstallTerminalError, MediaInstallPhase, MediaInstallProtocol,
    MediaInstallReceipt, MediaInstallRequestId, MediaInstanceId,
};
use player_core::pipeline::audio::{AudioChannelLayout, AudioDecoderConfig, AudioOutputSpec};
use player_core::demux::DemuxSeekRequest;
use player_core::prepared_demux_seek::{
    PreparedDemuxSeekEnqueueError, PreparedDemuxSeekLandingPolicy, PreparedDemuxSeekMode,
    PreparedDemuxSeekPort, PreparedDemuxSeekReceipt, PreparedDemuxSeekRequestId,
};
use player_core::runtime_settings::{
    validate_runtime_default_volume, validate_runtime_tick_config, PlayerRuntimeApplyError,
    PlayerRuntimeApplyReport, PlayerRuntimeBoundaryActivity, PlayerRuntimeSettingId,
    PlayerRuntimeSettingsUpdate, PlayerRuntimeVideoBackendPreference, PlayerTickConfig,
    RuntimeSettingError,
};
use player_core::time::Duration;
use std::path::PathBuf;

type Settings = PlayerRuntimeSettingsUpdate<u32, u32>;

fn tick_config() -> PlayerTickConfig {
    PlayerTickConfig {
        max_demux_packets_per_tick: 1,
        max_video_present_queue: 4,
        min_video_present_queue: 1,
        target_video_present_queue: 2,
        min_texture_slots_available_for_decode: 1,
        target_texture_slots_available_for_decode: 2,
        max_pending_video_packets: 1,
        decoder_ready_queue_frames: 1,
        max_video_packets_sent_per_tick: 1,
        max_decoded_video_frames_drained_per_tick: 1,
        target_video_decode_ahead: Duration::from_millis(1),
        max_video_decode_ahead: Duration::from_millis(2),
        adaptive_catch_up_time_budget: Duration::from_millis(1),
        seek_fast_preroll_time_budget: Duration::from_millis(1),
        seek_fast_preroll_video_packet_burst: 1,
        audio_buffer_high_water_mark_ms: 200.0f64.to_bits(),
        audio_demux_low_water_mark_ms: 50.0f64.to_bits(),
        audio_preroll_target_ms: 20.0f64.to_bits(),
        seek_commit_timeout: Duration::from_secs(1),
        seek_resume_audio_min_buffer_ms: 10.0f64.to_bits(),
        seek_resume_audio_gate_timeout: Duration::from_secs(1),
        seek_resume_video_min_ready_frames: 1,
        video_present_lead_frames: 0.5f64.to_bits(),
        video_present_window_frames: 1.0f64.to_bits(),
        video_late_drop_grace_frames: 0.0f64.to_bits(),
    }
}

#[test]
fn valid_limits_pass_every_check() {
    assert_eq!(validate_runtime_tick_config(&tick_config()), Ok(()));
}

#[test]
fn the_first_check_that_fails_names_the_error() {
    let mut no_packets = tick_config();
    no_packets.max_demux_packets_per_tick = 0;
    no_packets.max_video_present_queue = 0;
    let error = validate_runtime_tick_config(&no_packets).expect_err("no packet may be read");
    assert_eq!(
        error,
        RuntimeSettingError::NotPositive(
            PlayerRuntimeSettingId::VideoSchedulerDemuxPacketsPerTick
        )
    );
    assert_eq!(
        error.message(""),
        "video.scheduler.demux_packets_per_tick must be greater than zero"
    );

    let mut disorder = tick_config();
    disorder.target_video_present_queue = 5;
    assert_eq!(
        validate_runtime_tick_config(&disorder),
        Err(RuntimeSettingError::PresentQueueOrder)
    );
    let mut slots = tick_config();
    slots.min_texture_slots_available_for_decode = 3;
    assert_eq!(validate_runtime_tick_config(&slots), Err(RuntimeSettingError::TextureSlotOrder));
    let mut ahead = tick_config();
    ahead.target_video_decode_ahead = Duration::from_millis(3);
    assert_eq!(validate_runtime_tick_config(&ahead), Err(RuntimeSettingError::DecodeAheadOrder));
    for fraction in [f64::NAN, f64::INFINITY, f64::NEG_INFINITY, -1.0, -f64::MIN_POSITIVE] {
        let mut grace = tick_config();
        grace.video_late_drop_grace_frames = fraction.to_bits();
        assert_eq!(
            validate_runtime_tick_config(&grace),
            Err(RuntimeSettingError::NotFiniteNonNegative {
                setting_id: PlayerRuntimeSettingId::PlayerTickConfig,
                value: fraction.to_bits(),
            })
        );
    }
    let mut minus_zero = tick_config();
    minus_zero.video_late_drop_grace_frames = (-0.0f64).to_bits();
    assert_eq!(validate_runtime_tick_config(&minus_zero), Ok(()));
}

#[test]
fn a_volume_lies_from_zero_to_one() {
    for volume in [0.0f32, -0.0, f32::MIN_POSITIVE, 0.5, 1.0] {
        assert_eq!(validate_runtime_default_volume(volume.to_bits()), Ok(()));
    }
    for volume in [1.0001f32, -0.1, f32::NAN, f32::INFINITY, f32::NEG_INFINITY] {
        assert_eq!(
            validate_runtime_default_volume(volume.to_bits()),
            Err(RuntimeSettingError::VolumeOutOfRange { volume: volume.to_bits() })
        );
    }
    assert_eq!(
        RuntimeSettingError::VolumeOutOfRange { volume: 2.0f32.to_bits() }.message("2"),
        "default volume must be finite and within 0.0..=1.0, got 2"
    );
}

#[test]
fn an_update_names_the_settings_that_led_to_it() {
    assert!(Settings::empty().is_empty());
    assert!(Settings::empty().affected_settings().is_empty());
    let update = Settings::empty()
        .with_tick_config(tick_config(), Vec::new())
        .with_video_backend(
            PlayerRuntimeVideoBackendPreference::Software,
            vec![PlayerRuntimeSettingId::VideoPreferredBackend],
        );
    assert!(!update.is_empty());
    assert_eq!(
        update.affected_settings(),
        vec![
            PlayerRuntimeSettingId::PlayerTickConfig,
            PlayerRuntimeSettingId::VideoPreferredBackend,
        ]
    );
    assert!(update.requires_pipeline_lifecycle_boundary());
    assert!(!Settings::empty()
        .with_default_volume(0.5f32.to_bits(), Vec::new())
        .requires_pipeline_lifecycle_boundary());
    assert!(!PlayerRuntimeApplyReport::empty().all_groups_accepted());
}

#[test]
fn errors_of_settings_have_their_texts() {
    let busy = PlayerRuntimeBoundaryActivity::Seek;
    for (error, text) in [
        (PlayerRuntimeApplyError::Backpressure, "player runtime apply queue is full".to_string()),
        (
            PlayerRuntimeApplyError::Disconnected,
            "player runtime apply worker is disconnected".to_string(),
        ),
        (
            PlayerRuntimeApplyError::RuntimeBusy(busy),
            "player runtime boundary is busy: Seek".to_string(),
        ),
        (
            PlayerRuntimeApplyError::ApplyAndRollbackFailed {
                apply_error: "a".to_string(),
                rollback_error: "b".to_string(),
            },
            "player runtime apply failed: a; rollback failed: b".to_string(),
        ),
        (
            PlayerRuntimeApplyError::Fatal("c".to_string()),
            "player runtime apply failed: c".to_string(),
        ),
    ] {
        assert_eq!(error.message(), text);
    }
}

#[test]
fn a_seek_goes_to_its_position_or_by_its_step() {
    let here = MediaTime::from_secs(4);
    assert_eq!(
        SeekTarget::Absolute(MediaTime::from_secs(9)).resolve(here),
        MediaTime::from_secs(9)
    );
    assert_eq!(
        SeekTarget::Relative(Duration::from_secs(3)).resolve(here),
        MediaTime::from_secs(7)
    );
    assert_eq!(
        SeekTarget::Relative(Duration::max_value()).resolve(here),
        MediaTime::from_duration(Duration::max_value())
    );
    assert_eq!(
        SeekRequest::accurate(Duration::from_secs(2)),
        SeekRequest::absolute(MediaTime::from_secs(2))
    );
}

#[test]
fn commands_carry_what_they_are_given() {
    let request = SeekRequest::relative(Duration::from_secs(1));
    assert_eq!(
        PlayerCommand::preview_live_scrub(request, 7),
        PlayerCommand::PreviewScrub { request, live_scrub: Some(7) }
    );
    assert_eq!(
        PlayerCommand::<u32>::end_scrub(ScrubCommitPolicy::default_timeline_release()),
        PlayerCommand::EndScrub {
            policy: ScrubCommitPolicy::default_timeline_release(),
            live_scrub: None,
        }
    );
    let open = MediaOpenRequest::new(MediaSource::Url("https://host/x".to_string()), true);
    assert_eq!(open.source.label(), "https://host/x");
    assert!(open.autoplay);
}

#[test]
fn an_error_shows_its_category_and_its_message() {
    let error = PlayerError::new(PlayerErrorKind::DemuxError, "broken".to_string());
    assert_eq!(error.display(), "DemuxError: broken");
}

#[test]
fn missing_audio_says_what_is_missing() {
    let config =
        AudioDecoderConfig::from_track_metadata(TrackId::new(1), "A_OPUS".to_string(), None, None);
    assert_eq!(
        missing_audio_decoder_factory().create_decoder::<u8>(&config),
        Err("audio decoder factory is not installed for codec A_OPUS".to_string())
    );
    assert_eq!(
        missing_audio_output_factory().create_output::<u8>(AudioOutputSpec::new(
            48_000,
            AudioChannelLayout::new(2, 3)
        )),
        Err("audio output factory is not installed".to_string())
    );
}

#[test]
fn identities_appear_in_decimal_in_texts() {
    let error = AcceptedMediaInstallTerminalError::MissingInstalled {
        request_id: MediaInstallRequestId::from_non_zero(120),
    };
    assert_eq!(
        error.message(""),
        "accepted media install request 120 не содержит обязательный Installed terminal"
    );
}

#[test]
fn a_required_backend_refuses_every_other() {
    let port = MediaInstallVideoResourcePort::new(
        MediaInstallVideoBackendConstraint::RequireBackend("vaapi".to_string()),
        3u8,
    );
    assert_eq!(port.refusal("vaapi"), None);
    assert_eq!(
        port.refusal("software"),
        Some("Backend `software` запрещён request-scoped media install policy".to_string())
    );
    let mut any = MediaInstallVideoResourcePort::any_playable(3u8);
    assert_eq!(any.refusal("software"), None);
    *any.resource_port_mut() = 4;
    assert_eq!(*any.resource_port_mut(), 4);
}

/// An owner of backends that remembers what it was told.
struct RecordingBackends {
    requests: Vec<DetachedVideoBackendRequest<u8>>,
    statuses: Vec<u16>,
    cancellations: Vec<(MediaInstallRequestId, char)>,
}

impl DetachedVideoBackendResourcePort for RecordingBackends {
    type Selection = u8;
    type Answer = String;
    type Status = u16;
    type CancellationCause = char;
    type PortError = &'static str;

    fn request_detached_backend(
        &mut self,
        request: DetachedVideoBackendRequest<u8>,
    ) -> Result<DetachedVideoBackendReply<String>, &'static str> {
        let answer = format!("{} {}", request.expected_backend_id, request.selection);
        self.requests.push(request);
        Ok(DetachedVideoBackendReply::Answered(answer))
    }

    fn publish_candidate_status(&mut self, status: u16) -> Result<(), &'static str> {
        self.statuses.push(status);
        Err("gone")
    }

    fn cancel_candidate(
        &mut self,
        request_id: MediaInstallRequestId,
        cause: char,
    ) -> Result<(), &'static str> {
        self.cancellations.push((request_id, cause));
        Ok(())
    }
}

#[test]
fn only_requests_for_an_allowed_backend_reach_the_owner() {
    let request_id = MediaInstallRequestId::from_non_zero(8);
    let asked = |backend: &str| DetachedVideoBackendRequest {
        request_id,
        expected_backend_id: backend.to_string(),
        selection: 5,
    };
    let owner = RecordingBackends {
        requests: Vec::new(),
        statuses: Vec::new(),
        cancellations: Vec::new(),
    };
    let mut port = MediaInstallVideoResourcePort::from_boxed(
        MediaInstallVideoBackendConstraint::RequireBackend("vaapi".to_string()),
        Box::new(owner),
    );
    assert_eq!(
        port.request_detached_backend(asked("software")),
        Ok(DetachedVideoBackendReply::Unavailable {
            request_id,
            reason: "Backend `software` запрещён request-scoped media install policy".to_string(),
        })
    );
    assert!(port.resource_port_mut().requests.is_empty());
    assert_eq!(
        port.request_detached_backend(asked("vaapi")),
        Ok(DetachedVideoBackendReply::Answered("vaapi 5".to_string()))
    );
    assert_eq!(port.resource_port_mut().requests, vec![asked("vaapi")]);
    assert_eq!(port.publish_candidate_status(3), Err("gone"));
    assert_eq!(port.resource_port_mut().statuses, vec![3]);
    assert_eq!(port.cancel_candidate(request_id, 'x'), Ok(()));
    assert_eq!(port.resource_port_mut().cancellations, vec![(request_id, 'x')]);
}

#[test]
fn a_position_is_prepared_between_acceptance_and_commit() {
    let request_id = MediaInstallRequestId::from_non_zero(6);
    let (receipt, port) = MediaInstallReceipt::new(request_id);
    let mut protocol = MediaInstallProtocol::accept(request_id, port);
    assert!(!protocol.begin_position_preparation());
    protocol.mark_ready_for_position_preparation();
    assert_eq!(
        receipt.try_take_ready_to_commit(protocol.port_mut().slots_mut()),
        Some(MediaInstallPhase::ReadyForPositionPreparation { request_id })
    );
    assert!(protocol.begin_position_preparation());
    assert!(!protocol.begin_position_preparation());
    assert_eq!(protocol.state, MediaInstallProtocolState::PositionPreparing);
    protocol.mark_ready_to_commit();
    assert!(protocol.is_ready_to_commit());
}

#[test]
fn receipts_hand_over_the_outcome_or_miss_their_owner() {
    let instance = MediaInstanceId::from_non_zero(3);
    let request = MediaInstallRequestId::from_non_zero(4);

    let (transport_tx, transport_rx) = bounded(1);
    let transport = ExactMediaTransportReceipt::new(instance, transport_rx);
    assert_eq!(transport.try_take_outcome(), Ok(None));
    let applied = ExactMediaTransportOutcome::Applied { media_instance_id: instance };
    transport_tx.send(applied.clone()).expect("the receipt is connected");
    assert_eq!(transport.wait_for_outcome(), Ok(applied));
    drop(transport_tx);
    assert_eq!(
        transport.wait_for_outcome(),
        Err(ExactMediaTransportReceiptError::MissingOwnerOutcome)
    );

    let (release_tx, release_rx) = bounded(1);
    let release = InstalledMediaReleaseReceipt::new(request, release_rx);
    release_tx.send(InstalledMediaReleaseOutcome::Absent).expect("the receipt is connected");
    assert_eq!(release.try_take_outcome(), Ok(Some(InstalledMediaReleaseOutcome::Absent)));
    drop(release_tx);
    assert_eq!(
        release.try_take_outcome(),
        Err(InstalledMediaReleaseReceiptError::MissingOwnerOutcome)
    );

    let (restore_tx, restore_rx) = bounded(1);
    let restore = InstalledMediaStateRestoreReceipt::new(request, restore_rx);
    restore_tx
        .send(InstalledMediaStateRestoreOutcome::StaleInstance)
        .expect("the receipt is connected");
    assert_eq!(restore.wait_for_outcome(), Ok(InstalledMediaStateRestoreOutcome::StaleInstance));
    drop(restore_tx);
    assert_eq!(
        restore.wait_for_outcome(),
        Err(InstalledMediaStateRestoreReceiptError::MissingOwnerOutcome)
    );
}

#[test]
fn seeks_of_a_worker_are_numbered_and_refused_with_a_reason() {
    assert_eq!(PreparedDemuxSeekRequestId::new(8).value(), 8);
    assert_eq!(
        PreparedDemuxSeekLandingPolicy::default(),
        PreparedDemuxSeekLandingPolicy::DecodeForwardToTarget
    );
    assert_eq!(
        PreparedDemuxSeekEnqueueError::ReceiptQueueFull.message(),
        "demux seek receipt queue is full"
    );
}

#[test]
fn a_source_is_labelled_by_its_path_or_by_its_text() {
    let file = MediaSource::LocalFile(PathBuf::from("/music/a song.flac"));
    assert_eq!(file.label(), "/music/a song.flac");
    assert_eq!(file.clone(), file);
    assert_eq!(MediaSource::ExternalLabel("radio".to_string()).label(), "radio");
}

/// A way to a worker that has stopped.
struct StoppedWorker;

impl PreparedDemuxSeekPort for StoppedWorker {
    fn enqueue_seek(
        &self,
        _request_id: PreparedDemuxSeekRequestId,
        _request: DemuxSeekRequest,
    ) -> Result<(), PreparedDemuxSeekEnqueueError> {
        Err(PreparedDemuxSeekEnqueueError::WorkerStopped)
    }

    fn poll_seek_receipt(&self) -> Option<PreparedDemuxSeekReceipt> {
        None
    }
}

#[test]
fn the_text_of_a_seek_mode_hides_the_way_to_the_worker() {
    let by_default: PreparedDemuxSeekMode<StoppedWorker> = PreparedDemuxSeekMode::default();
    assert_eq!(by_default.text(), "Synchronous");
    let receipted = PreparedDemuxSeekMode::WorkerReceipted {
        port: StoppedWorker,
        landing_policy: PreparedDemuxSeekLandingPolicy::AuthoritativePostTarget,
    };
    assert_eq!(
        receipted.text(),
        "WorkerReceipted { landing_policy: AuthoritativePostTarget, .. }"
    );
    assert!(PreparedDemuxSeekRequestId::new(9) < PreparedDemuxSeekRequestId::new(10));
}

#[test]
fn defaults_hold_nothing() {
    assert!(PlayerRuntimeApplyReport::default().groups.is_empty());
    assert!(Settings::default().tick_config.is_none());
}
