//! The keyframe index that is gathered while media plays.
use player_core::background_indexer::{
    BackgroundIndexEntry, BackgroundIndexer, BackgroundIndexerConfig, IndexPauseReason,
    IndexPressureSnapshot, PlayerTickPacket, ResolvedDemuxSeekTarget, SeekAccessDiagnostics,
};
use player_core::command::SeekMode;
use player_core::media::{MediaDuration, MediaTime, TrackId, TrackKind};
use player_core::time::Duration;

fn indexer() -> BackgroundIndexer {
    BackgroundIndexer::new(BackgroundIndexerConfig::from_network_config(4))
}

#[test]
fn indexer_pauses_under_pressure() {
    let mut indexer = indexer();

    indexer.apply_pressure(IndexPressureSnapshot {
        active_scrub: true,
        low_playback_buffer: true,
        high_decode_render_load: true,
        shutdown_requested: false,
    });

    assert!(indexer.diagnostics().paused);
    assert_eq!(
        indexer.diagnostics().pause_reason,
        Some(IndexPauseReason::ActiveScrub)
    );

    indexer.apply_pressure(IndexPressureSnapshot {
        shutdown_requested: true,
        ..IndexPressureSnapshot::default()
    });

    assert_eq!(
        indexer.diagnostics().pause_reason,
        Some(IndexPauseReason::Shutdown)
    );
}

#[test]
fn stale_generation_update_is_counted_and_ignored() {
    let mut indexer = indexer();
    indexer.start_job("source-a".to_string(), Some(MediaDuration::from_secs(10)), Vec::new());

    indexer.record_entry(999, test_entry(1, 1, true));

    assert_eq!(indexer.diagnostics().stale_jobs, 1);
    assert_eq!(indexer.diagnostics().progress.entries, 0);
}

#[test]
fn starting_new_job_counts_superseded_job() {
    let mut indexer = indexer();

    indexer.start_job("source-a".to_string(), None, Vec::new());
    indexer.start_job("source-b".to_string(), None, Vec::new());

    assert_eq!(indexer.diagnostics().cancelled_or_superseded_jobs, 1);
}

#[test]
fn nearest_keyframe_before_returns_latest_keyframe_not_after_target() {
    let mut indexer = indexer();
    indexer.start_job(
        "source-a".to_string(),
        Some(MediaDuration::from_secs(20)),
        vec![
            test_entry(1, 0, true),
            test_entry(1, 5, true),
            test_entry(1, 8, false),
            test_entry(1, 12, true),
        ],
    );

    let keyframe = indexer.nearest_keyframe_before(TrackId::new(1), MediaTime::from_secs(9));

    assert_eq!(keyframe, Some(MediaTime::from_secs(5)));
}

#[test]
fn resolve_demux_seek_target_preserves_byte_offset_hint() {
    let mut indexer = indexer();
    indexer.start_job(
        "source-a".to_string(),
        Some(MediaDuration::from_secs(20)),
        vec![
            test_entry(1, 0, true),
            test_entry_with_offset(1, 5, true, 4096),
            test_entry_with_offset(1, 12, true, 8192),
        ],
    );

    let target = indexer.resolve_demux_seek_target_with_hint(
        SeekMode::KeyframeBefore,
        Some(TrackId::new(1)),
        MediaTime::from_secs(9),
    );

    assert_eq!(
        target,
        ResolvedDemuxSeekTarget {
            position: MediaTime::from_secs(5),
            byte_offset: Some(4096),
        }
    );
}

#[test]
fn diagnostics_record_cache_range_seek_and_timeout_counters() {
    let mut indexer = indexer();

    indexer.update_cache_counters(2, 3);
    indexer.update_range_counters(4, 1);
    indexer.note_seek_completed(
        Duration::from_millis(15),
        MediaTime::from_secs(10),
        MediaTime::from_secs(8),
    );
    indexer.note_timeout();

    let diagnostics = indexer.diagnostics();
    assert_eq!(diagnostics.cache_hits, 2);
    assert_eq!(diagnostics.cache_misses, 3);
    assert_eq!(diagnostics.range_requests, 4);
    assert_eq!(diagnostics.timeouts, 2);
    assert_eq!(
        diagnostics.seek.last_seek_latency,
        Some(Duration::from_millis(15))
    );
    assert_eq!(
        diagnostics.seek.last_seek_target,
        Some(MediaTime::from_secs(10))
    );
    assert_eq!(
        diagnostics.seek.last_seek_actual,
        Some(MediaTime::from_secs(8))
    );
}

fn test_entry(track_id: u32, seconds: u64, keyframe: bool) -> BackgroundIndexEntry {
    BackgroundIndexEntry {
        track_id: TrackId::new(track_id),
        time: MediaTime::from_secs(seconds),
        byte_offset: None,
        keyframe,
    }
}

fn test_entry_with_offset(
    track_id: u32,
    seconds: u64,
    keyframe: bool,
    byte_offset: u64,
) -> BackgroundIndexEntry {
    BackgroundIndexEntry {
        byte_offset: Some(byte_offset),
        ..test_entry(track_id, seconds, keyframe)
    }
}

#[test]
fn the_budget_is_counted_in_mebibytes_and_saturates() {
    assert_eq!(
        BackgroundIndexerConfig::from_network_config(4).io_budget_bytes_per_sec,
        4 * 1024 * 1024
    );
    assert_eq!(
        BackgroundIndexerConfig::from_network_config(u64::MAX).io_budget_bytes_per_sec,
        u64::MAX
    );
}

#[test]
fn targets_without_a_known_keyframe_stay_as_they_are() {
    let mut indexer = indexer();
    indexer.start_job(
        "source-a".to_string(),
        None,
        vec![test_entry_with_offset(1, 5, true, 4096)],
    );
    let target = MediaTime::from_secs(4);
    for (mode, track) in [
        (SeekMode::KeyframeBefore, Some(TrackId::new(1))),
        (SeekMode::KeyframeBefore, Some(TrackId::new(2))),
        (SeekMode::KeyframeBefore, None),
        (SeekMode::Accurate, Some(TrackId::new(1))),
        (SeekMode::KeyframeAfter, Some(TrackId::new(1))),
    ] {
        assert_eq!(indexer.resolve_demux_seek_target(mode, track, target), target);
    }
}

#[test]
fn video_packets_join_the_active_job_and_audio_packets_do_not() {
    let mut indexer = indexer();
    let packet = |kind: TrackKind, seconds: u64| PlayerTickPacket {
        kind,
        track_id: TrackId::new(1),
        pts: Duration::from_secs(seconds),
        byte_offset: None,
        keyframe: true,
    };
    indexer.record_tick_packet(&packet(TrackKind::Video, 1));
    assert_eq!(indexer.diagnostics().progress.entries, 0);

    indexer.start_job("source-a".to_string(), None, Vec::new());
    indexer.record_tick_packet(&packet(TrackKind::Video, 7));
    indexer.record_tick_packet(&packet(TrackKind::Video, 3));
    indexer.record_tick_packet(&packet(TrackKind::Audio, 9));
    let progress = indexer.diagnostics().progress;
    assert_eq!(progress.entries, 2);
    assert_eq!(progress.indexed_until, Some(MediaTime::from_secs(7)));
    assert_eq!(indexer.active_source_key(), Some("source-a"));

    indexer.mark_complete(indexer.active_generation());
    assert!(indexer.diagnostics().progress.complete);
    indexer.mark_complete(0);
    assert_eq!(indexer.diagnostics().stale_jobs, 1);
    indexer.cancel_active_job();
    assert_eq!(indexer.active_source_key(), None);
}

#[test]
fn a_clone_goes_its_own_way() {
    let mut indexer = indexer();
    indexer.start_job("source-a".to_string(), None, vec![test_entry(1, 5, true)]);
    let copy = indexer.clone();
    indexer.start_job("source-b".to_string(), None, Vec::new());
    assert_eq!(
        copy.nearest_keyframe_before(TrackId::new(1), MediaTime::from_secs(9)),
        Some(MediaTime::from_secs(5))
    );
    assert_eq!(indexer.nearest_keyframe_before(TrackId::new(1), MediaTime::from_secs(9)), None);
    assert_eq!(copy.diagnostics().cancelled_or_superseded_jobs, 0);
    assert_eq!(indexer.diagnostics().cancelled_or_superseded_jobs, 1);
}

#[test]
fn nothing_is_known_of_seeks_before_the_first() {
    let seek = SeekAccessDiagnostics::default();
    assert_eq!(seek.last_seek_latency, None);
    assert_eq!(seek.last_seek_target, None);
    assert_eq!(seek.last_seek_actual, None);
}
