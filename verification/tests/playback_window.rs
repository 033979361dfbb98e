//! Windows of playback inside a source.
use player_core::media::{MediaDuration, MediaTime, TrackKind};
use player_core::playback_window::{
    MediaPlaybackWindow, MediaPlaybackWindowError, MediaPlaybackWindowSourceError,
    PlaybackWindowEndState,
};
use player_core::time::Duration;

#[test]
fn rejects_empty_or_reversed_window() {
    let start = MediaTime::from_secs(10);
    assert_eq!(
        MediaPlaybackWindow::new(start, Some(start)),
        Err(MediaPlaybackWindowError::EndNotAfterStart)
    );
    assert_eq!(
        MediaPlaybackWindow::new(start, Some(MediaTime::from_secs(9))),
        Err(MediaPlaybackWindowError::EndNotAfterStart)
    );
}

#[test]
fn maps_absolute_and_relative_positions_with_end_clamp() {
    let window =
        MediaPlaybackWindow::new(MediaTime::from_secs(10), Some(MediaTime::from_secs(25)))
            .expect("window valid");
    assert_eq!(
        window.absolute_position(MediaTime::from_secs(4), Some(Duration::from_secs(60))),
        MediaTime::from_secs(14)
    );
    assert_eq!(
        window.absolute_position(MediaTime::from_secs(99), Some(Duration::from_secs(60))),
        MediaTime::from_secs(25)
    );
    assert_eq!(
        window.relative_position(MediaTime::from_secs(7), Some(Duration::from_secs(60))),
        MediaTime::zero()
    );
    assert_eq!(
        window.relative_position(MediaTime::from_secs(40), Some(Duration::from_secs(60))),
        MediaTime::from_secs(15)
    );
}

#[test]
fn open_end_uses_physical_source_duration() {
    let window =
        MediaPlaybackWindow::new(MediaTime::from_secs(40), None).expect("window valid");
    assert_eq!(
        window.relative_duration(Some(Duration::from_secs(55))),
        Some(MediaDuration::from_secs(15))
    );
    assert_eq!(window.relative_duration(None), None);
}

#[test]
fn a_window_has_to_lie_inside_its_source() {
    let window = MediaPlaybackWindow::new(MediaTime::from_secs(10), Some(MediaTime::from_secs(25)))
        .expect("window valid");
    assert_eq!(window.validate_source_duration(None), Ok(()));
    assert_eq!(window.validate_source_duration(Some(Duration::from_secs(25))), Ok(()));
    assert_eq!(
        window.validate_source_duration(Some(Duration::from_secs(24))),
        Err(MediaPlaybackWindowSourceError::EndOutsideSource)
    );
    assert_eq!(
        window.validate_source_duration(Some(Duration::from_secs(10))),
        Err(MediaPlaybackWindowSourceError::StartOutsideSource)
    );
    assert_eq!(
        MediaPlaybackWindowSourceError::EndOutsideSource.message(),
        "playback window end находится вне media source"
    );
}

#[test]
fn positions_inside_the_window_survive_the_way_there_and_back() {
    let window = MediaPlaybackWindow::new(MediaTime::from_secs(10), Some(MediaTime::from_secs(25)))
        .expect("window valid");
    let source = Some(Duration::from_secs(60));
    for seconds in 0..=15 {
        let relative = MediaTime::from_secs(seconds);
        let absolute = window.absolute_position(relative, source);
        assert_eq!(absolute, MediaTime::from_secs(seconds + 10));
        assert_eq!(window.relative_position(absolute, source), relative);
    }
}

#[test]
fn packets_are_admitted_before_the_end_and_frames_from_the_start_on() {
    let window = MediaPlaybackWindow::new(MediaTime::from_secs(10), Some(MediaTime::from_secs(25)))
        .expect("window valid");
    assert!(window.admits_packet_at(Duration::from_secs(9)));
    assert!(!window.admits_packet_at(Duration::from_secs(25)));
    assert!(!window.admits_frame_at(Duration::from_secs(9)));
    assert!(window.admits_frame_at(Duration::from_secs(10)));
    assert!(!window.admits_frame_at(Duration::from_secs(25)));
}

#[test]
fn the_window_has_ended_when_every_selected_track_has() {
    let mut state = PlaybackWindowEndState::default();
    assert!(!state.all_selected_tracks_ended(true, true));
    state.note_selected_track_end(TrackKind::Audio);
    assert!(!state.all_selected_tracks_ended(true, true));
    assert!(state.all_selected_tracks_ended(true, false));
    state.note_selected_track_end(TrackKind::Video);
    assert!(state.all_selected_tracks_ended(true, true));
    state.reset();
    assert!(!state.all_selected_tracks_ended(false, true));
}
