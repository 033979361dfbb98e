//! Media that was opened outside the player.
use bytes::Bytes;
use player_core::command::MediaSource;
use player_core::demux::{
    DemuxPacket, DemuxReadEvent, DemuxRetryHint, DemuxSeekRequest, DemuxSeekResult,
    DemuxSeekability, DemuxTrackListUpdate, Demuxer, MediaMetadata, TimeBase,
    TrackInfo, TrackTimestamp,
};
use player_core::media::{MediaTime, PacketKeyframe, TrackId, TrackKind, VideoCodec};
use player_core::media_opening::prefetched_demuxer::PrefetchedDemuxer;
use player_core::media_opening::{
    playback_window_landing, MediaSourceKind, PlaybackWindowPreparationError, PreparedDemuxer,
    PreparedMedia, PreparedMediaSource,
};
use player_core::pipeline::packets::{
    AudioPacketTiming, ExactPresentationWindow, PacketPresentationWindow,
};
use player_core::playback_window::{MediaPlaybackWindow, MediaPlaybackWindowSourceError};
use player_core::time::Duration;
use std::collections::VecDeque;
use std::path::PathBuf;
use std::sync::Arc;

/// What a decoder reads of a track.
#[derive(Debug, PartialEq, Eq)]
struct Details {
    codec_private: Vec<u8>,
}

fn ticks(count: i64) -> TrackTimestamp {
    TrackTimestamp {
        track_id: TrackId::new(1),
        ticks: count,
        time_base: TimeBase { numerator: 1, denominator: 1_000 },
    }
}

fn title_after(events_read: usize) -> MediaMetadata {
    MediaMetadata { title: Some(format!("title {events_read}")), artist: None, album: None }
}

/// A demuxer that hands over given events and lands where it is told.
#[derive(Debug)]
struct FiniteInnerDemuxer {
    events: VecDeque<DemuxReadEvent<Details>>,
    landing: Option<Duration>,
    seekability: DemuxSeekability,
    events_read: usize,
}

impl Demuxer for FiniteInnerDemuxer {
    type Error = String;
    type TrackDetails = Details;

    fn tracks(&self) -> Vec<TrackInfo<Details>> {
        Vec::new()
    }

    fn duration(&self) -> Option<Duration> {
        Some(Duration::from_secs(99))
    }

    fn media_metadata(&self) -> Option<MediaMetadata> {
        if self.events_read == 0 {
            return None;
        }
        Some(title_after(self.events_read))
    }

    fn seekability(&self) -> DemuxSeekability {
        self.seekability
    }

    fn next_event(&mut self) -> Result<DemuxReadEvent<Details>, String> {
        self.events_read += 1;
        Ok(self.events.pop_front().unwrap_or(DemuxReadEvent::EndOfStream))
    }

    fn seek(&mut self, timestamp: Duration) -> Result<DemuxSeekResult, String> {
        match self.landing {
            Some(landing) => Ok(DemuxSeekResult {
                requested_position: MediaTime::from_duration(timestamp),
                actual_position: MediaTime::from_duration(landing),
                actual_track_timestamp: None,
            }),
            None => Err("the source is gone".to_string()),
        }
    }

    fn seek_with_request(&mut self, request: DemuxSeekRequest) -> Result<DemuxSeekResult, String> {
        self.seek(request.position)
    }
}

fn demuxer(events: Vec<DemuxReadEvent<Details>>, landing: Option<Duration>) -> FiniteInnerDemuxer {
    FiniteInnerDemuxer {
        events: VecDeque::from(events),
        landing,
        seekability: DemuxSeekability::Seekable,
        events_read: 0,
    }
}

fn track(id: u32, kind: TrackKind, video_codec: Option<VideoCodec>) -> TrackInfo<Details> {
    TrackInfo {
        id: TrackId::new(id),
        kind,
        codec_id: format!("codec-{id}"),
        video_codec,
        time_base: TimeBase { numerator: 1, denominator: 1_000 },
        duration: None,
        sample_rate: None,
        channels: None,
        details: Arc::new(Details { codec_private: vec![id as u8] }),
    }
}

fn packet(pts: u64) -> DemuxReadEvent<Details> {
    DemuxReadEvent::Packet(DemuxPacket {
        track_id: TrackId::new(1),
        pts: Duration::from_millis(pts),
        dts: None,
        timing: AudioPacketTiming {
            pts: Some(ticks(pts as i64)),
            dts: None,
            duration_ticks: Some(20),
        },
        presentation_window: PacketPresentationWindow::Bounded(ExactPresentationWindow {
            start: ticks(pts as i64),
            end: ticks(pts as i64 + 20),
        }),
        keyframe: PacketKeyframe::Keyframe,
        encoded_bytes: Bytes::from_static(b"abc"),
    })
}

#[test]
fn temporary_replay_event_preserves_visible_snapshots_and_identity() {
    let retry_hint = DemuxRetryHint { delay: Duration::from_millis(25) };
    let temporary_event = DemuxReadEvent::TemporarilyUnavailable(retry_hint);
    let inner = demuxer(vec![DemuxReadEvent::EndOfStream], Some(Duration::zero()));
    let mut demuxer = PrefetchedDemuxer::new(
        inner,
        Vec::new(),
        Some(Duration::from_secs(10)),
        DemuxSeekability::Seekable,
        None,
        VecDeque::from([temporary_event.clone()]),
    );

    let replayed_event = demuxer.next_event().expect("the event is no error");

    assert_eq!(replayed_event, temporary_event);
    assert_eq!(demuxer.duration(), Some(Duration::from_secs(10)));
    assert_eq!(demuxer.seekability(), DemuxSeekability::Seekable);
    assert!(demuxer.tracks().is_empty());
    assert_eq!(
        demuxer.next_event().expect("the source is read on"),
        DemuxReadEvent::EndOfStream
    );
}

#[test]
fn replayed_updates_become_visible_when_they_are_met() {
    let update = DemuxReadEvent::TracksChanged(DemuxTrackListUpdate {
        tracks: vec![track(7, TrackKind::Audio, None)],
        duration: Some(Duration::from_secs(3)),
    });
    let metadata = MediaMetadata { title: Some("title".to_string()), artist: None, album: None };
    let mut demuxer = PrefetchedDemuxer::new(
        demuxer(Vec::new(), None),
        Vec::new(),
        None,
        DemuxSeekability::Unknown,
        None,
        VecDeque::from([
            packet(1),
            update.clone(),
            DemuxReadEvent::MediaMetadataChanged(metadata.clone()),
        ]),
    );

    assert_eq!(demuxer.next_event(), Ok(packet(1)));
    assert!(demuxer.tracks().is_empty());
    assert_eq!(demuxer.next_event(), Ok(update));
    assert_eq!(demuxer.tracks(), vec![track(7, TrackKind::Audio, None)]);
    assert_eq!(demuxer.duration(), Some(Duration::from_secs(3)));
    assert_eq!(demuxer.media_metadata(), None);
    demuxer.next_event().expect("the metadata is replayed");
    assert_eq!(demuxer.media_metadata(), Some(metadata));
}

#[test]
fn a_seek_drops_the_replay_and_keeps_the_tracks() {
    let mut demuxer = PrefetchedDemuxer::new(
        demuxer(vec![packet(9)], Some(Duration::from_secs(2))),
        vec![track(7, TrackKind::Audio, None)],
        Some(Duration::from_secs(10)),
        DemuxSeekability::Seekable,
        None,
        VecDeque::from([packet(1)]),
    );
    let landing = demuxer.seek(Duration::from_secs(4)).expect("the source lands");
    assert_eq!(landing.actual_position, MediaTime::from_secs(2));
    assert_eq!(demuxer.next_event(), Ok(packet(9)));
    assert_eq!(demuxer.duration(), Some(Duration::from_secs(99)));
    assert_eq!(demuxer.tracks(), vec![track(7, TrackKind::Audio, None)]);
}

#[test]
fn labels_are_shown_without_query_and_fragment() {
    for (label, kind, location) in [
        ("https://host/clip?token=1#part", MediaSourceKind::Remote, "https://host/clip"),
        ("http://host/clip#part?x", MediaSourceKind::Remote, "http://host/clip"),
        ("service:clip?x", MediaSourceKind::External, "service:clip"),
        ("xhttp://host", MediaSourceKind::External, "xhttp://host"),
    ] {
        let info = PreparedMediaSource::ExternalLabel(label.to_string()).source_info();
        assert_eq!(info.kind, kind);
        assert_eq!(info.display_location, location);
        assert_eq!(info.size_bytes, None);
    }
}

#[test]
fn a_local_file_is_shown_by_its_path_and_named_by_its_stem() {
    let media = PreparedMedia::from_local_file(
        PathBuf::from("/music/song?.flac"),
        Some(12),
        demuxer(Vec::new(), None),
    );
    assert_eq!(media.source_info.kind, MediaSourceKind::LocalFile);
    assert_eq!(media.source_info.display_location, "/music/song?.flac");
    assert_eq!(media.source_info.size_bytes, Some(12));
    assert_eq!(media.media_title(), Some("song?".to_string()));
    assert_eq!(media.media_source(), MediaSource::LocalFile(PathBuf::from("/music/song?.flac")));
    assert_eq!(media.duration(), Some(Duration::from_secs(99)));
    assert_eq!(media.missing_video_track_message(), "Поддерживаемый video track не найден");
}

#[test]
fn preferred_formats_come_first_and_equals_keep_their_order() {
    let tracks = vec![
        track(1, TrackKind::Audio, None),
        track(2, TrackKind::Video, Some(VideoCodec::H264)),
        track(3, TrackKind::Video, Some(VideoCodec::Av1)),
        track(4, TrackKind::Video, None),
        track(5, TrackKind::Video, Some(VideoCodec::H264)),
        track(6, TrackKind::Audio, None),
    ];
    let media = PreparedMedia::from_snapshots(
        PreparedMediaSource::ExternalLabel("label".to_string()),
        demuxer(Vec::new(), None),
        tracks,
        None,
        DemuxSeekability::Unknown,
    )
    .with_preferred_video_codecs(&[VideoCodec::Av1, VideoCodec::H264]);
    let order: Vec<u32> = media.tracks().iter().map(|track| track.id.0).collect();
    assert_eq!(order, vec![3, 2, 5, 4, 1, 6]);
}

#[test]
fn a_window_is_prepared_only_inside_a_seekable_source() {
    let window = |start: u64, end: Option<u64>| {
        MediaPlaybackWindow::new(MediaTime::from_secs(start), end.map(MediaTime::from_secs))
            .expect("the window is valid")
    };
    let media = |landing: Option<Duration>| {
        PreparedMedia::from_external_label("label".to_string(), demuxer(vec![packet(1)], landing))
    };

    let mut beyond = media(None).with_playback_window(window(200, None));
    assert_eq!(
        beyond.prepare_playback_window(),
        Err(PlaybackWindowPreparationError::OutsideSource(
            MediaPlaybackWindowSourceError::StartOutsideSource
        ))
    );
    let mut too_long = media(None).with_playback_window(window(1, Some(100)));
    assert_eq!(
        too_long.prepare_playback_window(),
        Err(PlaybackWindowPreparationError::OutsideSource(
            MediaPlaybackWindowSourceError::EndOutsideSource
        ))
    );
    let mut from_the_start = media(None).with_playback_window(window(0, Some(5)));
    assert_eq!(from_the_start.prepare_playback_window(), Ok(()));

    let mut fixed = media(None).with_playback_window(window(2, None));
    fixed.seekability = DemuxSeekability::NotSeekable;
    assert_eq!(
        fixed.prepare_playback_window(),
        Err(PlaybackWindowPreparationError::SourceNotSeekable)
    );
    let mut gone = media(None).with_playback_window(window(2, None));
    assert_eq!(
        gone.prepare_playback_window(),
        Err(PlaybackWindowPreparationError::SeekFailed("the source is gone".to_string()))
    );
    let mut late = media(Some(Duration::from_secs(3))).with_playback_window(window(2, None));
    assert_eq!(
        late.prepare_playback_window(),
        Err(PlaybackWindowPreparationError::LandedAfterStart)
    );
    let mut early = media(Some(Duration::from_secs(1))).with_playback_window(window(2, None));
    early.prefetch_next_event_for_video_probe().expect("a packet is read");
    assert_eq!(early.prepare_playback_window(), Ok(()));
    assert!(early.prefetch_state.is_none());
}

#[test]
fn a_landing_counts_up_to_the_start() {
    let landing = |actual: u64| -> Result<DemuxSeekResult, String> {
        Ok(DemuxSeekResult {
            requested_position: MediaTime::from_secs(5),
            actual_position: MediaTime::from_secs(actual),
            actual_track_timestamp: None,
        })
    };
    assert_eq!(playback_window_landing(MediaTime::from_secs(5), landing(5)), Ok(()));
    assert_eq!(
        playback_window_landing(MediaTime::from_secs(5), landing(6)),
        Err(PlaybackWindowPreparationError::LandedAfterStart)
    );
}

#[test]
fn prefetched_events_are_replayed_after_the_installation() {
    let retry = DemuxReadEvent::TemporarilyUnavailable(DemuxRetryHint {
        delay: Duration::from_millis(1),
    });
    let mut media = PreparedMedia::from_external_label(
        "label".to_string(),
        demuxer(vec![retry.clone(), packet(1), packet(2), packet(3)], None),
    );
    assert_eq!(media.prefetch_next_event_for_video_probe(), Ok(retry));
    assert!(media.prefetch_state.is_none());
    assert_eq!(media.prefetch_next_event_for_video_probe(), Ok(packet(1)));
    assert_eq!(media.prefetch_next_event_for_video_probe(), Ok(packet(2)));

    let mut slots = media.into_pipeline_slots();
    assert!(matches!(slots.demuxer, PreparedDemuxer::Prefetched(_)));
    assert_eq!(slots.source_label, Some("label".to_string()));
    assert_eq!(slots.file_path, None);
    for pts in 1..=3 {
        assert_eq!(slots.demuxer.next_event(), Ok(packet(pts)));
    }
    assert_eq!(slots.demuxer.next_event(), Ok(DemuxReadEvent::EndOfStream));
}

#[test]
fn media_of_which_nothing_was_read_keeps_its_demuxer() {
    let media = PreparedMedia::from_external_label("label".to_string(), demuxer(Vec::new(), None));
    assert_eq!(media.source_label(), "label");
    let slots = media.into_pipeline_slots();
    assert!(matches!(slots.demuxer, PreparedDemuxer::Direct(_)));
}

#[test]
fn the_metadata_of_prefetched_media_is_that_before_the_first_event() {
    let mut media = PreparedMedia::from_external_label(
        "label".to_string(),
        demuxer(vec![packet(1), packet(2)], None),
    );
    media.prefetch_next_event_for_video_probe().expect("a packet is read");
    media.prefetch_next_event_for_video_probe().expect("a packet is read");
    assert_eq!(media.demuxer.media_metadata(), Some(title_after(2)));
    let slots = media.into_pipeline_slots();
    assert_eq!(slots.demuxer.media_metadata(), None);
}

#[test]
fn a_path_without_a_file_names_no_medium() {
    for (path, title) in [
        ("/music/album.live.flac", Some("album.live".to_string())),
        ("/music/.hidden", Some(".hidden".to_string())),
        ("/music/..", None),
        ("/", None),
    ] {
        let media = PreparedMedia::from_local_file(
            PathBuf::from(path),
            None,
            demuxer(Vec::new(), None),
        );
        assert_eq!(media.media_title(), title);
        assert_eq!(media.source_label(), path);
        assert_eq!(media.media_source().label(), media.source.display_label());
        let slots = media.into_pipeline_slots();
        assert_eq!(slots.file_path, Some(PathBuf::from(path)));
    }
}

#[test]
fn tracks_and_packets_keep_what_only_decoders_read() {
    let mut media = PreparedMedia::from_snapshots(
        PreparedMediaSource::ExternalLabel("label".to_string()),
        demuxer(vec![packet(7)], None),
        vec![track(5, TrackKind::Video, None)],
        None,
        DemuxSeekability::Unknown,
    );
    let event = media.prefetch_next_event_for_video_probe().expect("a packet is read");
    match event {
        DemuxReadEvent::Packet(read) => {
            assert_eq!(read.timing.pts, Some(ticks(7)));
            assert_eq!(
                read.presentation_window,
                PacketPresentationWindow::Bounded(ExactPresentationWindow {
                    start: ticks(7),
                    end: ticks(27),
                })
            );
        }
        _ => panic!("a packet was expected"),
    }
    let slots = media.into_pipeline_slots();
    assert_eq!(slots.tracks[0].details.codec_private, vec![5]);
    assert_eq!(slots.tracks[0].time_base.denominator, 1_000);
}
