//! Frames on their way to the renderer and back.
use crossbeam_channel::bounded;
use player_core::channel::SendFailure;
use player_core::diagnostics::{PipelineQueueDepthSnapshot, PlaybackDiagnostics};
use player_core::media::{
    DecodedFrame, FrameMemoryPath, FrameResourceHandle, VideoFrameTimingDiagnostics,
};
use player_core::render_lease_bridge::{
    record_acquire_sample, record_release_ack_latency, record_resource_lock_sample,
    record_timing_sample, LatestPresentFrameAcquire, LatestPresentFrameSlot, LeasedPresentFrame,
    PresentFrameResourceProvider, PresentFrameResourceProviderLookup, PublishDecision,
    PublishedFrame, RenderAcquireSample, RenderLeaseDiagnosticsSink, RenderLeaseRelease,
    RenderLeaseReleaseSink, RenderResourcePreviousFrameReuseSample, RenderSampleReporter,
    RenderTimingSample,
    VideoFrameLease, VideoFrameReleaseFallbackReason, VideoFrameReleaseOutcome,
    VideoPresentFrameResourceKind, VideoPresentFrameResourceLookup,
};
use player_core::time::{Duration, Instant};
use std::sync::{Arc, Mutex};

/// What a provider is made to answer.
#[derive(Debug, Clone, Copy)]
enum Answer {
    Ready,
    Missing,
    Busy,
    Fatal,
}

/// A provider that answers as it is told and writes down what it was given back.
#[derive(Debug, Clone)]
struct FakeProvider {
    expected_handle: FrameResourceHandle,
    lock_wait: Duration,
    answer: Answer,
    released_handles: Arc<Mutex<Vec<FrameResourceHandle>>>,
}

impl FakeProvider {
    fn new(expected_handle: FrameResourceHandle, lock_wait: Duration, answer: Answer) -> Self {
        Self {
            expected_handle,
            lock_wait,
            answer,
            released_handles: Arc::new(Mutex::new(Vec::new())),
        }
    }
}

impl PresentFrameResourceProvider for FakeProvider {
    type Resource = u64;

    fn try_resource_lookup(
        &self,
        handle: FrameResourceHandle,
    ) -> PresentFrameResourceProviderLookup<u64> {
        assert_eq!(handle, self.expected_handle);
        let resource_pool_lock_wait = self.lock_wait;
        match self.answer {
            Answer::Ready => PresentFrameResourceProviderLookup::Ready {
                resource: handle.0 + 1,
                resource_pool_lock_wait,
            },
            Answer::Missing => {
                PresentFrameResourceProviderLookup::Missing { resource_pool_lock_wait }
            }
            Answer::Busy => PresentFrameResourceProviderLookup::Busy { resource_pool_lock_wait },
            Answer::Fatal => PresentFrameResourceProviderLookup::Fatal { resource_pool_lock_wait },
        }
    }

    fn release_frame(&self, handle: FrameResourceHandle) {
        assert_eq!(handle, self.expected_handle);
        self.released_handles.lock().expect("the log is not poisoned").push(handle);
    }
}

/// What the renderer reads of a frame.
#[derive(Debug, Clone, Copy, PartialEq, Eq)]
struct Picture {
    rotated: bool,
}

fn now() -> Instant {
    Instant::at(Duration::from_secs(5))
}

fn decoded_frame_for_tests(resource_handle: FrameResourceHandle) -> DecodedFrame<Picture> {
    DecodedFrame {
        generation: 0,
        pts: Duration::from_millis(42),
        memory_path: FrameMemoryPath::DmaBufZeroCopy,
        width: 640,
        height: 360,
        render_width: 640,
        render_height: 360,
        resource_handle,
        timings: VideoFrameTimingDiagnostics::default(),
        decoder_ready_queue_depth: None,
        metadata: Picture { rotated: true },
    }
}

fn lease_with_resource_provider_for_tests(
    render_generation: u64,
    resource_handle: FrameResourceHandle,
    lock_wait: Duration,
    answer: Answer,
) -> VideoFrameLease<FakeProvider, Picture> {
    VideoFrameLease::new(
        render_generation,
        decoded_frame_for_tests(resource_handle),
        Some(FakeProvider::new(resource_handle, lock_wait, answer)),
    )
}

fn lease_without_resource_provider_for_tests(
    render_generation: u64,
    frame: DecodedFrame<Picture>,
) -> VideoFrameLease<FakeProvider, Picture> {
    VideoFrameLease::new(render_generation, frame, None)
}

fn queued_release_for_tests(
    resource_handle: FrameResourceHandle,
) -> RenderLeaseRelease<FakeProvider> {
    RenderLeaseRelease {
        render_generation: 0,
        resource_handle,
        resource_provider: None,
        submitted_to_renderer: false,
        released_at: now(),
    }
}

#[test]
fn resource_descriptor_exposes_renderer_neutral_dma_buf_handle() {
    let resource_handle = FrameResourceHandle(76);
    let frame = decoded_frame_for_tests(resource_handle);
    let lease = lease_without_resource_provider_for_tests(8, frame);

    let descriptor = lease.resource_descriptor();

    assert_eq!(descriptor.kind(), VideoPresentFrameResourceKind::DmaBufZeroCopy);
    assert_eq!(descriptor.render_generation, 8);
    assert_eq!(descriptor.resource_handle, resource_handle);
    assert_eq!(descriptor.memory_path, FrameMemoryPath::DmaBufZeroCopy);
}

#[test]
fn try_resource_lookup_reports_missing_without_provider() {
    let resource_handle = FrameResourceHandle(77);
    let frame = decoded_frame_for_tests(resource_handle);
    let lease = lease_without_resource_provider_for_tests(9, frame);

    assert_eq!(
        lease.try_resource_lookup(),
        (VideoPresentFrameResourceLookup::Missing, None)
    );
}

#[test]
fn try_resource_lookup_reports_busy_without_ready_resource() {
    let resource_handle = FrameResourceHandle(78);
    let lock_wait = Duration::from_micros(70);
    let lease = lease_with_resource_provider_for_tests(9, resource_handle, lock_wait, Answer::Busy);

    let (lookup, sample) = lease.try_resource_lookup();
    assert!(matches!(lookup, VideoPresentFrameResourceLookup::Busy));

    let sample = sample.expect("busy resource lookup sample should be queued");
    assert_eq!(sample.wait, lock_wait);
    assert!(sample.lookup_was_busy);
}

#[test]
fn try_resource_lookup_reports_error_without_collapsing_to_missing() {
    let resource_handle = FrameResourceHandle(79);
    let lock_wait = Duration::from_micros(120);
    let lease =
        lease_with_resource_provider_for_tests(9, resource_handle, lock_wait, Answer::Fatal);

    let (lookup, sample) = lease.try_resource_lookup();
    assert!(matches!(lookup, VideoPresentFrameResourceLookup::Fatal));

    let sample = sample.expect("error resource lookup sample should be queued");
    assert_eq!(sample.wait, lock_wait);
    assert!(!sample.lookup_was_busy);
}

#[test]
fn try_resource_lookup_reports_missing_with_lock_wait_sample() {
    let resource_handle = FrameResourceHandle(80);
    let lock_wait = Duration::from_micros(250);
    let lease =
        lease_with_resource_provider_for_tests(9, resource_handle, lock_wait, Answer::Missing);

    let (lookup, sample) = lease.try_resource_lookup();
    assert!(matches!(lookup, VideoPresentFrameResourceLookup::Missing));

    let sample = sample.expect("resource lock wait sample should be queued");
    assert_eq!(sample.wait, lock_wait);
    assert!(!sample.lookup_was_busy);
    assert_eq!(sample.pts, Some(Duration::from_millis(42)));
    assert_eq!(sample.memory_path, Some(FrameMemoryPath::DmaBufZeroCopy));
}

#[test]
fn drop_ack_keeps_renderer_owned_release_path_renderer_neutral() {
    let resource_handle = FrameResourceHandle(81);
    let lock_wait = Duration::from_micros(75);
    let (release_tx, release_rx) = bounded(1);
    let sink = RenderLeaseReleaseSink::new(release_tx);
    let lease = lease_with_resource_provider_for_tests(9, resource_handle, lock_wait, Answer::Busy);

    let (lookup, sample) = lease.try_resource_lookup();
    assert!(matches!(lookup, VideoPresentFrameResourceLookup::Busy));

    let sample = sample.expect("busy resource lookup sample should be queued");
    assert_eq!(sample.wait, lock_wait);
    assert!(sample.lookup_was_busy);

    assert_eq!(
        sink.release_frame(lease.into_release(now())),
        VideoFrameReleaseOutcome::Accepted
    );

    let release = release_rx
        .try_recv()
        .expect("dropping resource lease should queue release ack");
    assert_eq!(release.render_generation, 9);
    assert_eq!(release.resource_handle, resource_handle);
    assert!(release.resource_provider.is_some());
    assert!(!release.submitted_to_renderer);
}

#[test]
fn full_release_queue_reports_backpressure_fallback_and_releases_provider() {
    let queued_handle = FrameResourceHandle(82);
    let fallback_handle = FrameResourceHandle(83);
    let (release_tx, release_rx) = bounded(1);
    release_tx
        .try_send(queued_release_for_tests(queued_handle))
        .expect("test release queue should accept pre-filled ack");
    let resource_provider = FakeProvider::new(fallback_handle, Duration::zero(), Answer::Missing);
    let released_handles = Arc::clone(&resource_provider.released_handles);
    let release_sink = RenderLeaseReleaseSink::new(release_tx);
    let release = RenderLeaseRelease {
        render_generation: 9,
        resource_handle: fallback_handle,
        resource_provider: Some(resource_provider),
        submitted_to_renderer: true,
        released_at: now(),
    };

    let outcome = release_sink.release_frame(release);

    assert!(matches!(
        outcome,
        VideoFrameReleaseOutcome::FallbackReleased {
            reason: VideoFrameReleaseFallbackReason::Backpressure
        }
    ));
    let still_queued_release = release_rx
        .try_recv()
        .expect("pre-filled release should stay in the full queue");
    assert_eq!(still_queued_release.resource_handle, queued_handle);
    assert!(release_rx.try_recv().is_err());
    assert_eq!(
        *released_handles.lock().expect("fallback release log mutex should not be poisoned"),
        vec![fallback_handle]
    );
}

#[test]
fn disconnected_release_queue_reports_disconnected_fallback_and_releases_provider() {
    let resource_handle = FrameResourceHandle(84);
    let (release_tx, release_rx) = bounded(1);
    let resource_provider = FakeProvider::new(resource_handle, Duration::zero(), Answer::Missing);
    let released_handles = Arc::clone(&resource_provider.released_handles);
    let release_sink = RenderLeaseReleaseSink::new(release_tx);
    let release = RenderLeaseRelease {
        render_generation: 9,
        resource_handle,
        resource_provider: Some(resource_provider),
        submitted_to_renderer: false,
        released_at: now(),
    };
    drop(release_rx);

    let outcome = release_sink.release_frame(release);

    assert!(matches!(
        outcome,
        VideoFrameReleaseOutcome::FallbackReleased {
            reason: VideoFrameReleaseFallbackReason::Disconnected
        }
    ));
    assert_eq!(
        *released_handles.lock().expect("fallback release log mutex should not be poisoned"),
        vec![resource_handle]
    );
}

#[test]
fn submitted_lease_drop_ack_records_renderer_usage() {
    let resource_handle = FrameResourceHandle(85);
    let lock_wait = Duration::from_micros(80);
    let (release_tx, release_rx) = bounded(1);
    let sink = RenderLeaseReleaseSink::new(release_tx);
    let mut lease =
        lease_with_resource_provider_for_tests(9, resource_handle, lock_wait, Answer::Busy);

    lease.mark_submitted_to_renderer();
    sink.release_frame(lease.into_release(now()));

    let release = release_rx
        .try_recv()
        .expect("dropping submitted lease should queue release ack");
    assert_eq!(release.resource_handle, resource_handle);
    assert!(release.submitted_to_renderer);
}

#[test]
fn renderer_materializer_can_report_resource_lookup_diagnostics() {
    let resource_handle = FrameResourceHandle(82);
    let lock_wait = Duration::from_micros(125);
    let lease =
        lease_without_resource_provider_for_tests(9, decoded_frame_for_tests(resource_handle));
    let (sample_tx, sample_rx) = bounded(1);
    lease.report_resource_lookup_sample(
        &RenderLeaseDiagnosticsSink::new(sample_tx),
        lock_wait,
        false,
    );

    let sample = sample_rx.try_recv().expect("renderer materializer lookup sample should be queued");
    assert_eq!(sample.wait, lock_wait);
    assert!(!sample.lookup_was_busy);
}

#[test]
fn a_texture_that_is_ready_is_handed_over_with_a_sample() {
    let lease = lease_with_resource_provider_for_tests(
        1,
        FrameResourceHandle(5),
        Duration::from_micros(3),
        Answer::Ready,
    );
    let (lookup, sample) = lease.try_resource_lookup();
    assert_eq!(lookup, VideoPresentFrameResourceLookup::Ready(6));
    assert_eq!(sample.map(|sample| sample.wait), Some(Duration::from_micros(3)));
}

#[test]
fn a_release_without_access_to_the_texture_is_reported() {
    let sent: Result<(), SendFailure<RenderLeaseRelease<FakeProvider>>> =
        Err(SendFailure::Full(queued_release_for_tests(FrameResourceHandle(1))));
    assert_eq!(
        RenderLeaseReleaseSink::outcome_of_send(sent),
        VideoFrameReleaseOutcome::FallbackUnavailable {
            reason: VideoFrameReleaseFallbackReason::Backpressure
        }
    );
    let gone: Result<(), SendFailure<RenderLeaseRelease<FakeProvider>>> =
        Err(SendFailure::Disconnected(queued_release_for_tests(FrameResourceHandle(1))));
    assert_eq!(
        RenderLeaseReleaseSink::outcome_of_send(gone),
        VideoFrameReleaseOutcome::FallbackUnavailable {
            reason: VideoFrameReleaseFallbackReason::Disconnected
        }
    );
}

#[test]
fn the_slot_follows_the_present_frame() {
    let mut slot: LatestPresentFrameSlot<VideoFrameLease<FakeProvider, Picture>> =
        LatestPresentFrameSlot::new();
    let frame = decoded_frame_for_tests(FrameResourceHandle(3));
    let lease = VideoFrameLease::from_leased_frame(LeasedPresentFrame {
        render_generation: 2,
        frame,
        resource_provider: FakeProvider::new(
            FrameResourceHandle(3),
            Duration::zero(),
            Answer::Ready,
        ),
        stale: true,
    });
    assert!(lease.stale);
    assert_eq!(lease.frame.metadata, Picture { rotated: true });
    let identity = lease.identity();
    assert_eq!(slot.publish_decision(Some(identity)), PublishDecision::PublishNew);
    assert!(slot.publish(Some(PublishedFrame { identity, lease })).is_none());
    assert_eq!(slot.current_identity(), Some(identity));
    assert_eq!(slot.publish_decision(Some(identity)), PublishDecision::KeepPublished);
    assert_eq!(slot.publish_decision(None), PublishDecision::ClearSlot);
    assert!(slot.clear().is_some());
    assert_eq!(slot.current_identity(), None);
}

#[test]
fn an_attempt_at_the_slot_has_three_outcomes() {
    for (slot, label, frame) in [
        (None, "busy", None),
        (Some(None), "empty", None),
        (Some(Some(7)), "acquired", Some(7)),
    ] {
        let acquired = LatestPresentFrameAcquire::from_slot(slot);
        assert_eq!(acquired.label(), label);
        assert_eq!(acquired.frame(), frame);
    }
}

#[test]
fn samples_are_counted_at_their_stage() {
    let mut diagnostics = PlaybackDiagnostics::new();
    let queues = PipelineQueueDepthSnapshot::default();
    record_acquire_sample(
        &mut diagnostics,
        RenderAcquireSample { wait: Duration::from_millis(1) },
        queues,
    );
    record_timing_sample(
        &mut diagnostics,
        RenderTimingSample { submit_present_elapsed: Duration::from_millis(2) },
        queues,
    );
    let lease =
        lease_without_resource_provider_for_tests(0, decoded_frame_for_tests(FrameResourceHandle(1)));
    record_resource_lock_sample(
        &mut diagnostics,
        lease.resource_lookup_sample(Duration::from_millis(3), true),
        queues,
    );
    record_release_ack_latency(
        &mut diagnostics,
        now(),
        now().after(Duration::from_millis(4)),
        queues,
    );
    let snapshot = diagnostics.snapshot_with_queues(queues);
    let latencies = snapshot.worst_latencies;
    assert_eq!(latencies.render_acquire.average, Duration::from_millis(1));
    assert_eq!(latencies.gpu_submit_present.average, Duration::from_millis(2));
    assert_eq!(latencies.render_resource_lock_wait.average, Duration::from_millis(3));
    assert_eq!(latencies.release_acknowledgement.average, Duration::from_millis(4));
    assert_eq!(snapshot.render_resource_lock_busy_count, 1);
}

#[test]
fn reports_arrive_in_their_queues_and_are_dropped_where_there_is_no_room() {
    let (acquire_tx, acquire_rx) = bounded(1);
    let (timing_tx, timing_rx) = bounded(1);
    let (reuse_tx, reuse_rx) = bounded(1);
    let reporter = RenderSampleReporter::new(acquire_tx, timing_tx, reuse_tx);
    reporter.report_render_acquire_sample(Duration::from_micros(3));
    reporter.report_render_acquire_sample(Duration::from_micros(4));
    reporter.report_gpu_submit_present_latency(Duration::from_micros(5));
    reporter.report_resource_previous_frame_reuse();
    assert_eq!(acquire_rx.try_recv(), Ok(RenderAcquireSample { wait: Duration::from_micros(3) }));
    assert!(acquire_rx.try_recv().is_err());
    assert_eq!(
        timing_rx.try_recv(),
        Ok(RenderTimingSample { submit_present_elapsed: Duration::from_micros(5) })
    );
    assert_eq!(reuse_rx.try_recv(), Ok(RenderResourcePreviousFrameReuseSample));
}
