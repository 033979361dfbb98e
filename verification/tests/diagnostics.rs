//! Counters and latencies of the pipeline.
use player_core::diagnostics::{
    average_duration, DecoderControlChannelPressureSnapshot, PipelineLatencyStage,
    PipelinePauseReason, PipelineQueueDepthSnapshot,
    PlaybackDiagnostics, SeekBootstrapDiagnosticsSnapshot, TextureSlotPressureSnapshot,
    VideoDropReason, VideoFramePublishPressureDiagnostics, RECENT_WORST_SAMPLE_LIMIT,
};
use player_core::media::{
    DecodedFrame, FrameMemoryPath, FrameResourceHandle, PacketKeyframe,
    VideoFrameTimingDiagnostics,
};
use player_core::time::Duration;

fn queue_depths_for_tests(pending_video_packets: usize) -> PipelineQueueDepthSnapshot {
    PipelineQueueDepthSnapshot {
        pending_video_packets,
        present_queue_depth: 2,
        decoder_send_queue_depth: pending_video_packets,
        decoder_ready_queue_depth: Some(1),
        texture_slots: Some(TextureSlotPressureSnapshot {
            capacity: 16,
            slots: 4,
            in_use: 3,
            free_surfaces: 1,
            waiting_gpu_completion: 1,
            waiting_decoder_reuse: 0,
            import_failures: 0,
            imports_created: 4,
            imports_reused: 8,
            imports_replaced: 0,
        }),
        ..PipelineQueueDepthSnapshot::default()
    }
}

fn decoded_frame_for_tests() -> DecodedFrame<()> {
    DecodedFrame {
        generation: 0,
        pts: Duration::from_millis(42),
        memory_path: FrameMemoryPath::DmaBufZeroCopy,
        width: 640,
        height: 360,
        render_width: 640,
        render_height: 360,
        resource_handle: FrameResourceHandle(7),
        timings: VideoFrameTimingDiagnostics {
            decoder_submit_latency: Some(Duration::from_millis(3)),
            dma_buf_import_latency: Some(Duration::from_millis(5)),
            ..VideoFrameTimingDiagnostics::default()
        },
        decoder_ready_queue_depth: Some(1),
        metadata: (),
    }
}

#[test]
fn aggregation_maps_drop_reasons_to_typed_counters() {
    let mut diagnostics = PlaybackDiagnostics::new();
    let queues = queue_depths_for_tests(3);

    diagnostics.record_drop(
        Some(Duration::from_millis(10)),
        VideoDropReason::SeekPreroll,
        queues,
    );
    diagnostics.record_drop(
        Some(Duration::from_millis(20)),
        VideoDropReason::StaleGeneration,
        queues,
    );
    diagnostics.record_drop(
        Some(Duration::from_millis(30)),
        VideoDropReason::Late,
        queues,
    );
    diagnostics.record_drop(
        Some(Duration::from_millis(40)),
        VideoDropReason::RenderAcquisitionTimeout,
        queues,
    );

    let snapshot = diagnostics.snapshot_with_queues(queues);

    assert_eq!(snapshot.drops.total, 4);
    assert_eq!(snapshot.drops.seek_discard, 2);
    assert_eq!(snapshot.drops.playback_or_render, 2);
    assert_eq!(snapshot.drops.seek_preroll, 1);
    assert_eq!(snapshot.drops.stale_generation, 1);
    assert_eq!(snapshot.drops.late, 1);
    assert_eq!(snapshot.drops.render_acquisition_timeout, 1);
    assert_eq!(
        snapshot.drops.last.map(|drop| drop.reason),
        Some(VideoDropReason::RenderAcquisitionTimeout)
    );
}

#[test]
fn aggregation_tracks_seek_bootstrap_window() {
    let mut diagnostics = PlaybackDiagnostics::new();
    let queues = queue_depths_for_tests(2);

    diagnostics.start_seek_bootstrap(queues);
    diagnostics.record_seek_bootstrap_drop_until_keyframe(queues);
    diagnostics.record_seek_bootstrap_drop_until_keyframe(queues);
    diagnostics.record_seek_bootstrap_first_accepted(PacketKeyframe::Unknown, queues);

    let snapshot = diagnostics.snapshot_with_queues(queues);

    assert_eq!(snapshot.seek_bootstrap.dropped_until_keyframe, 2);
    assert_eq!(
        snapshot.seek_bootstrap.first_accepted_keyframe,
        Some(PacketKeyframe::Unknown)
    );

    diagnostics.start_seek_bootstrap(queues);

    assert_eq!(
        diagnostics.snapshot_with_queues(queues).seek_bootstrap,
        SeekBootstrapDiagnosticsSnapshot::default()
    );
}

#[test]
fn aggregation_records_frame_timings_without_unbounded_samples() {
    let mut diagnostics = PlaybackDiagnostics::new();
    let queues = queue_depths_for_tests(1);
    let frame = decoded_frame_for_tests();

    diagnostics.observe_decoded_frame(&frame, queues);

    let snapshot = diagnostics.snapshot_with_queues(queues);

    assert_eq!(
        snapshot.zero_copy_memory_path,
        Some(FrameMemoryPath::DmaBufZeroCopy)
    );
    assert_eq!(snapshot.decoded_frames, 1);
    assert_eq!(snapshot.worst_latencies.decoder_submit.samples, 1);
    assert_eq!(snapshot.worst_latencies.dma_buf_import.samples, 1);
    assert!(snapshot.recent_worst_samples.len() <= RECENT_WORST_SAMPLE_LIMIT);
}

#[test]
fn aggregation_records_decoder_frame_publish_pressure_snapshot() {
    let mut diagnostics = PlaybackDiagnostics::new();
    let queues = queue_depths_for_tests(2);
    let pressure = VideoFramePublishPressureDiagnostics {
        frame_publish_channel_full_count: 3,
        pending_publish_retry_count: 2,
        max_decoded_frame_publish_latency: Duration::from_millis(99),
        total_decoded_frame_publish_latency: Duration::from_millis(150),
    };
    let mut first_frame = decoded_frame_for_tests();
    first_frame.timings.decoded_frame_publish_latency = Some(Duration::from_millis(4));
    let mut second_frame = decoded_frame_for_tests();
    second_frame.timings.decoded_frame_publish_latency = Some(Duration::from_millis(6));

    diagnostics.record_decoded_frame_publish_pressure(pressure, queues);
    diagnostics.observe_decoded_frame(&first_frame, queues);
    diagnostics.observe_decoded_frame(&second_frame, queues);

    let snapshot = diagnostics.snapshot_with_queues(queues);
    let publish_pressure = snapshot.decoder_frame_publish_pressure;

    assert_eq!(publish_pressure.frame_publish_channel_full_count, 3);
    assert_eq!(publish_pressure.pending_publish_retry_count, 2);
    assert_eq!(
        publish_pressure.max_decoded_frame_publish_latency,
        Duration::from_millis(6)
    );
    assert_eq!(
        publish_pressure.total_decoded_frame_publish_latency,
        Duration::from_millis(10)
    );
    assert_eq!(snapshot.worst_latencies.decoded_frame_publish.samples, 2);
}

#[test]
fn log_summary_treats_decoder_control_pressure_as_activity() {
    let diagnostics = PlaybackDiagnostics::new();
    let mut queues = queue_depths_for_tests(0);
    queues.decoder_control_channel = Some(DecoderControlChannelPressureSnapshot {
        control_channel_len: 32,
        control_channel_capacity: 32,
        control_channel_full_count: 1,
        release_control_send_fail_count: 1,
        flush_control_send_fail_count: 0,
    });

    let summary = diagnostics.log_summary(queues);
    let control_pressure = summary
        .queues
        .decoder_control_channel
        .expect("control pressure snapshot should be preserved in log summary");

    assert!(summary.has_activity());
    assert_eq!(control_pressure.control_channel_len, 32);
    assert_eq!(control_pressure.control_channel_capacity, 32);
    assert_eq!(control_pressure.control_channel_full_count, 1);
    assert_eq!(control_pressure.release_control_send_fail_count, 1);
    assert_eq!(control_pressure.flush_control_send_fail_count, 0);
}

#[test]
fn recent_worst_samples_are_bounded() {
    let mut diagnostics = PlaybackDiagnostics::new();
    let queues = queue_depths_for_tests(0);

    for milliseconds in 0..64 {
        diagnostics.record_latency(
            PipelineLatencyStage::DemuxRead,
            Duration::from_millis(milliseconds),
            None,
            None,
            queues,
        );
    }

    let snapshot = diagnostics.snapshot_with_queues(queues);

    assert_eq!(
        snapshot.recent_worst_samples.len(),
        RECENT_WORST_SAMPLE_LIMIT
    );
    assert_eq!(
        snapshot
            .recent_worst_samples
            .last()
            .map(|sample| sample.duration),
        Some(Duration::from_millis(63))
    );
}

#[test]
fn render_resource_lock_wait_latency_has_count_average_and_worst() {
    let mut diagnostics = PlaybackDiagnostics::new();
    let queues = queue_depths_for_tests(0);

    diagnostics.record_latency(
        PipelineLatencyStage::RenderResourceLockWait,
        Duration::from_micros(100),
        Some(Duration::from_millis(40)),
        Some(FrameMemoryPath::DmaBufZeroCopy),
        queues,
    );
    diagnostics.record_latency(
        PipelineLatencyStage::RenderResourceLockWait,
        Duration::from_micros(300),
        Some(Duration::from_millis(41)),
        Some(FrameMemoryPath::DmaBufZeroCopy),
        queues,
    );

    let snapshot = diagnostics.snapshot_with_queues(queues);
    let render_resource_lock_wait = snapshot.worst_latencies.render_resource_lock_wait;

    assert_eq!(render_resource_lock_wait.samples, 2);
    assert_eq!(
        render_resource_lock_wait.average,
        Duration::from_micros(200)
    );
    assert_eq!(
        render_resource_lock_wait
            .worst
            .map(|sample| sample.duration),
        Some(Duration::from_micros(300))
    );
}

#[test]
fn render_resource_busy_and_reuse_counters_are_aggregated_separately() {
    let mut diagnostics = PlaybackDiagnostics::new();
    let queues = queue_depths_for_tests(0);

    diagnostics.record_render_resource_lock_busy(queues);
    diagnostics.record_render_resource_previous_frame_reuse(queues);
    diagnostics.record_render_resource_previous_frame_reuse(queues);

    let snapshot = diagnostics.snapshot_with_queues(queues);

    assert_eq!(snapshot.render_resource_lock_busy_count, 1);
    assert_eq!(snapshot.render_resource_previous_frame_reuse_count, 2);
}

#[test]
fn free_texture_slots_never_fall_below_zero() {
    let mut slots = TextureSlotPressureSnapshot { capacity: 4, in_use: 3, ..Default::default() };
    assert_eq!(slots.available_slots(), 1);
    slots.in_use = 9;
    assert_eq!(slots.available_slots(), 0);
}

#[test]
fn averages_round_towards_zero_and_need_a_sample() {
    assert_eq!(average_duration(Duration::from_nanos(10), 3), Duration::from_nanos(3));
    assert_eq!(average_duration(Duration::from_nanos(10), 0), Duration::zero());
}

#[test]
fn pauses_are_counted_in_all_and_by_their_reason() {
    let mut diagnostics = PlaybackDiagnostics::new();
    let queues = queue_depths_for_tests(0);
    diagnostics.record_pause(PipelinePauseReason::DecoderPacketQueueFull, queues);
    diagnostics.record_pause(PipelinePauseReason::DecoderPacketQueueFull, queues);
    let snapshot = diagnostics.snapshot_with_queues(queues);
    assert_eq!(snapshot.pauses.total, 2);
    assert_eq!(snapshot.pauses.decoder_packet_queue_full, 2);
}

#[test]
fn the_worst_sample_stays_until_a_longer_one_comes() {
    let mut diagnostics = PlaybackDiagnostics::new();
    let queues = queue_depths_for_tests(0);
    for milliseconds in [5, 9, 7] {
        diagnostics.record_latency(
            PipelineLatencyStage::DemuxRead,
            Duration::from_millis(milliseconds),
            None,
            None,
            queues,
        );
    }
    let snapshot = diagnostics.snapshot_with_queues(queues);
    let demux_read = snapshot.worst_latencies.demux_read;
    assert_eq!(demux_read.samples, 3);
    assert_eq!(demux_read.average, Duration::from_millis(7));
    assert_eq!(
        demux_read.worst.map(|sample| sample.duration),
        Some(Duration::from_millis(9))
    );
}

#[test]
fn a_reset_forgets_everything() {
    let mut diagnostics = PlaybackDiagnostics::new();
    let queues = queue_depths_for_tests(1);
    diagnostics.record_drop(None, VideoDropReason::Late, queues);
    diagnostics.record_repeated_video_frame(queues);
    diagnostics.reset();
    let summary = diagnostics.log_summary(PipelineQueueDepthSnapshot::default());
    assert!(!summary.has_activity());
    assert_eq!(diagnostics.snapshot_with_queues(queues).drops.total, 0);
}

#[test]
fn a_clone_of_the_diagnostics_counts_by_itself() {
    let mut diagnostics = PlaybackDiagnostics::new();
    let queues = queue_depths_for_tests(3);
    diagnostics.observe_decoded_frame(&decoded_frame_for_tests(), queues);
    let copy = diagnostics.clone();
    diagnostics.observe_decoded_frame(&decoded_frame_for_tests(), queues);
    assert_eq!(copy.snapshot.decoded_frames, 1);
    assert_eq!(diagnostics.snapshot.decoded_frames, 2);
}

#[test]
fn both_reasons_of_a_seek_make_up_its_group() {
    let mut diagnostics = PlaybackDiagnostics::new();
    let queues = queue_depths_for_tests(3);
    for reason in [
        VideoDropReason::SeekPreroll,
        VideoDropReason::StaleGeneration,
        VideoDropReason::SeekPreroll,
        VideoDropReason::Late,
    ] {
        diagnostics.record_drop(None, reason, queues);
    }
    let drops = diagnostics.snapshot.drops;
    assert_eq!((drops.seek_preroll, drops.stale_generation), (2, 1));
    assert_eq!(drops.seek_discard, 3);
}
