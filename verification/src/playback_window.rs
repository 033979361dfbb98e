//! Playback of a part of the source.
use crate::media::{MediaDuration, MediaTime, TrackKind};
use crate::time::{
    lemma_duration_ext, lemma_duration_in_range, saturated, Duration, DURATION_MAX_NANOS,
};
use vstd::prelude::*;

verus! {

broadcast use {lemma_duration_in_range, lemma_duration_ext};

/// A part of the source. Its bounds are positions of the source; players count positions from
/// its start.
#[derive(Debug, Clone, Copy, PartialEq, Eq, Structural, Hash)]
pub struct MediaPlaybackWindow {
    start: MediaTime,
    end_exclusive: Option<MediaTime>,
}

/// The length of a window from `start` to `end`, or to the end of the source.
pub open spec fn window_length(
    start: int,
    end: Option<MediaTime>,
    source_duration: Option<Duration>,
) -> Option<int> {
    let absolute_end = match end {
        Some(end) => Some(end@),
        None => match source_duration {
            Some(duration) => Some(duration@),
            None => None,
        },
    };
    match absolute_end {
        Some(end) => if end >= start {
            Some(end - start)
        } else {
            None
        },
        None => None,
    }
}

/// The smaller of a position and a length, where there is one.
pub open spec fn clamped(position: int, length: Option<int>) -> int {
    match length {
        Some(length) => if position > length {
            length
        } else {
            position
        },
        None => position,
    }
}

impl MediaPlaybackWindow {
    #[verifier::type_invariant]
    pub closed spec fn is_not_empty(self) -> bool {
        self.end_exclusive matches Some(end) ==> self.start@ < end@
    }

    /// The first position.
    pub closed spec fn spec_start(self) -> MediaTime {
        self.start
    }

    /// The position after the last.
    pub closed spec fn spec_end(self) -> Option<MediaTime> {
        self.end_exclusive
    }

    /// The length of the window.
    pub open spec fn length(self, source_duration: Option<Duration>) -> Option<int> {
        window_length(self.spec_start()@, self.spec_end(), source_duration)
    }

    /// The position of the source for a position of the window.
    pub open spec fn to_absolute(self, relative: int, source_duration: Option<Duration>) -> int {
        saturated(self.spec_start()@ + clamped(relative, self.length(source_duration)))
    }

    /// The position of the window for a position of the source.
    pub open spec fn to_relative(self, absolute: int, source_duration: Option<Duration>) -> int {
        clamped(
            if absolute > self.spec_start()@ {
                absolute - self.spec_start()@
            } else {
                0
            },
            self.length(source_duration),
        )
    }

    /// A window that is not empty.
    pub fn new(start: MediaTime, end_exclusive: Option<MediaTime>) -> (r: Result<
        Self,
        MediaPlaybackWindowError,
    >)
        ensures
            r is Err <==> (end_exclusive matches Some(end) && end@ <= start@),
            r matches Err(error) ==> error is EndNotAfterStart,
            r matches Ok(window) ==> window.spec_start() == start && window.spec_end()
                == end_exclusive,
    {
        if let Some(end) = end_exclusive {
            if end.0 <= start.0 {
                return Err(MediaPlaybackWindowError::EndNotAfterStart);
            }
        }
        Ok(MediaPlaybackWindow { start, end_exclusive })
    }

    /// The first position.
    pub fn start(self) -> (r: MediaTime)
        ensures
            r == self.spec_start(),
    {
        self.start
    }

    /// The position after the last, or nothing for a window to the end of the source.
    pub fn end_exclusive(self) -> (r: Option<MediaTime>)
        ensures
            r == self.spec_end(),
    {
        self.end_exclusive
    }

    /// What keeps the window from lying inside a source of the given length.
    pub open spec fn fits_source(self, source_duration: Option<Duration>) -> Option<
        MediaPlaybackWindowSourceError,
    > {
        match source_duration {
            None => None,
            Some(duration) => if self.spec_start()@ >= duration@ {
                Some(MediaPlaybackWindowSourceError::StartOutsideSource)
            } else if self.spec_end() is Some && self.spec_end()->0@ > duration@ {
                Some(MediaPlaybackWindowSourceError::EndOutsideSource)
            } else {
                None
            },
        }
    }

    /// Whether the window lies inside a source of the given length.
    pub fn validate_source_duration(self, source_duration: Option<Duration>) -> (r: Result<
        (),
        MediaPlaybackWindowSourceError,
    >)
        ensures
            r == match self.fits_source(source_duration) {
                None => Ok::<(), MediaPlaybackWindowSourceError>(()),
                Some(error) => Err(error),
            },
    {
        match source_duration {
            None => Ok(()),
            Some(source_end) => {
                if self.start.0 >= source_end {
                    return Err(MediaPlaybackWindowSourceError::StartOutsideSource);
                }
                if let Some(end) = self.end_exclusive {
                    if end.0 > source_end {
                        return Err(MediaPlaybackWindowSourceError::EndOutsideSource);
                    }
                }
                Ok(())
            },
        }
    }

    /// The length of the window, where it is known and not negative.
    pub fn relative_duration(self, source_duration: Option<Duration>) -> (r: Option<MediaDuration>)
        ensures
            r is Some <==> self.length(source_duration) is Some,
            r matches Some(duration) ==> duration@ == self.length(source_duration)->0,
    {
        let absolute_end = match self.end_exclusive {
            Some(end) => Some(end.as_duration()),
            None => source_duration,
        };
        match absolute_end {
            Some(end) => match end.checked_sub(self.start.as_duration()) {
                Some(length) => Some(MediaDuration::from_duration(length)),
                None => None,
            },
            None => None,
        }
    }

    /// The position of the source for a position of the window. A position after the end is
    /// the end.
    pub fn absolute_position(
        self,
        relative_position: MediaTime,
        source_duration: Option<Duration>,
    ) -> (r: MediaTime)
        ensures
            r@ == self.to_absolute(relative_position@, source_duration),
    {
        let relative = match self.relative_duration(source_duration) {
            Some(length) => relative_position.as_duration().min(length.as_duration()),
            None => relative_position.as_duration(),
        };
        MediaTime::from_duration(self.start.as_duration().saturating_add(relative))
    }

    /// The position of the window for a position of the source. A position before the start is
    /// the start, and one after the end is the end.
    pub fn relative_position(
        self,
        absolute_position: MediaTime,
        source_duration: Option<Duration>,
    ) -> (r: MediaTime)
        ensures
            r@ == self.to_relative(absolute_position@, source_duration),
    {
        let relative = absolute_position.as_duration().saturating_sub(self.start.as_duration());
        let clamped = match self.relative_duration(source_duration) {
            Some(length) => relative.min(length.as_duration()),
            None => relative,
        };
        MediaTime::from_duration(clamped)
    }

    /// Whether a packet lies before the end.
    pub fn admits_packet_at(self, absolute_pts: Duration) -> (r: bool)
        ensures
            r == (self.spec_end() matches Some(end) ==> absolute_pts@ < end@),
    {
        match self.end_exclusive {
            Some(end) => absolute_pts < end.as_duration(),
            None => true,
        }
    }

    /// Whether a frame lies inside the window.
    pub fn admits_frame_at(self, absolute_pts: Duration) -> (r: bool)
        ensures
            r == (self.spec_start()@ <= absolute_pts@ && (self.spec_end() matches Some(end)
                ==> absolute_pts@ < end@)),
    {
        absolute_pts >= self.start.as_duration() && self.admits_packet_at(absolute_pts)
    }
}

/// Why two positions form no window.
#[derive(Debug, Clone, Copy, PartialEq, Eq, Structural)]
pub enum MediaPlaybackWindowError {
    /// The end does not lie after the start.
    EndNotAfterStart,
}

impl MediaPlaybackWindowError {
    /// The text of the error.
    pub fn message(&self) -> (r: String)
        ensures
            r@ == "playback window end должен быть позже start"@,
    {
        "playback window end должен быть позже start".to_owned()
    }
}

/// Why a window does not lie inside a source.
#[derive(Debug, Clone, Copy, PartialEq, Eq, Structural)]
pub enum MediaPlaybackWindowSourceError {
    /// The start lies at the end of the source or after it.
    StartOutsideSource,
    /// The end lies after the end of the source.
    EndOutsideSource,
}

impl MediaPlaybackWindowSourceError {
    /// The text of the error.
    pub open spec fn spec_message(self) -> Seq<char> {
        match self {
            MediaPlaybackWindowSourceError::StartOutsideSource => {
                "playback window start находится вне media source"@
            },
            MediaPlaybackWindowSourceError::EndOutsideSource => {
                "playback window end находится вне media source"@
            },
        }
    }

    /// The text of the error.
    pub fn message(&self) -> (r: String)
        ensures
            r@ == self.spec_message(),
    {
        match self {
            MediaPlaybackWindowSourceError::StartOutsideSource => {
                "playback window start находится вне media source".to_owned()
            },
            MediaPlaybackWindowSourceError::EndOutsideSource => {
                "playback window end находится вне media source".to_owned()
            },
        }
    }
}

/// Which selected tracks have reached the end of the window.
#[derive(Debug, Clone, Copy, PartialEq, Eq, Structural)]
pub struct PlaybackWindowEndState {
    /// The selected audio track has.
    pub audio_end_seen: bool,
    /// The selected video track has.
    pub video_end_seen: bool,
}

impl Default for PlaybackWindowEndState {
    fn default() -> (r: Self)
        ensures
            r == (PlaybackWindowEndState { audio_end_seen: false, video_end_seen: false }),
    {
        PlaybackWindowEndState { audio_end_seen: false, video_end_seen: false }
    }
}

impl PlaybackWindowEndState {
    /// Starts anew after an installation or a seek.
    pub fn reset(&mut self)
        ensures
            *final(self) == (PlaybackWindowEndState {
                audio_end_seen: false,
                video_end_seen: false,
            }),
    {
        *self = Self::default();
    }

    /// Remembers that a selected track has reached the end.
    pub fn note_selected_track_end(&mut self, kind: TrackKind)
        ensures
            *final(self) == match kind {
                TrackKind::Audio => PlaybackWindowEndState { audio_end_seen: true, ..*old(self) },
                TrackKind::Video => PlaybackWindowEndState { video_end_seen: true, ..*old(self) },
            },
    {
        match kind {
            TrackKind::Audio => {
                self.audio_end_seen = true;
            },
            TrackKind::Video => {
                self.video_end_seen = true;
            },
        }
    }

    /// Whether all selected tracks have reached the end, of which there has to be one.
    pub fn all_selected_tracks_ended(&self, has_selected_audio: bool, has_selected_video: bool) -> (r:
        bool)
        ensures
            r == {
                &&& has_selected_audio || has_selected_video
                &&& has_selected_audio ==> self.audio_end_seen
                &&& has_selected_video ==> self.video_end_seen
            },
    {
        (!has_selected_audio || self.audio_end_seen) && (!has_selected_video
            || self.video_end_seen) && (has_selected_audio || has_selected_video)
    }
}

/// A position of the window that is not after its end comes back from the source.
pub proof fn law_relative_position_round_trip(
    window: MediaPlaybackWindow,
    relative: int,
    source_duration: Option<Duration>,
)
    requires
        0 <= relative,
        0 <= window.spec_start()@,
        window.length(source_duration) matches Some(length) ==> relative <= length,
        window.spec_start()@ + relative <= DURATION_MAX_NANOS,
    ensures
        window.to_relative(window.to_absolute(relative, source_duration), source_duration)
            == relative,
{
}

/// A position of the source inside the window comes back from the window.
pub proof fn law_absolute_position_round_trip(
    window: MediaPlaybackWindow,
    absolute: int,
    source_duration: Option<Duration>,
)
    requires
        window.spec_start()@ <= absolute <= DURATION_MAX_NANOS,
        window.length(source_duration) matches Some(length) ==> absolute
            <= window.spec_start()@ + length,
    ensures
        window.to_absolute(window.to_relative(absolute, source_duration), source_duration)
            == absolute,
{
}

/// Positions of a window with a known length stay inside it.
pub proof fn law_positions_stay_inside_the_window(
    window: MediaPlaybackWindow,
    position: int,
    source_duration: Option<Duration>,
)
    requires
        0 <= position,
        0 <= window.spec_start()@,
        window.length(source_duration) is Some,
        window.spec_start()@ + window.length(source_duration)->0 <= DURATION_MAX_NANOS,
    ensures
        0 <= window.to_relative(position, source_duration) <= window.length(source_duration)->0,
        window.spec_start()@ <= window.to_absolute(position, source_duration)
            <= window.spec_start()@ + window.length(source_duration)->0,
{
}

/// Positions of a window count from its start. A position of the window that is not after the end
/// lies exactly that far after the start in the source, and one that is after the end is the end.
/// The end is the explicit one, or else that of the source, where it does not lie before the
/// start; where no end is known nothing is cut.
pub proof fn law_source_positions_count_from_the_start(
    start: MediaTime,
    end: Option<MediaTime>,
    window: MediaPlaybackWindow,
    relative: MediaTime,
    source_duration: Option<Duration>,
    position: MediaTime,
)
    requires
        call_ensures(
            MediaPlaybackWindow::new,
            (start, end),
            Ok::<MediaPlaybackWindow, MediaPlaybackWindowError>(window),
        ),
        call_ensures(
            MediaPlaybackWindow::absolute_position,
            (window, relative, source_duration),
            position,
        ),
        start@ + relative@ <= 18_446_744_073_709_551_615_999_999_999,
    ensures
        end matches Some(end) ==> start@ + relative@ <= end@ ==> position@ == start@ + relative@,
        end matches Some(end) ==> start@ + relative@ > end@ ==> position@ == end@,
        end is None && source_duration is Some && start@ + relative@ <= source_duration->0@
            ==> position@ == start@ + relative@,
        end is None && source_duration is Some && start@ <= source_duration->0@ < start@ + relative@
            ==> position@ == source_duration->0@,
        end is None && (source_duration is None || source_duration->0@ < start@) ==> position@
            == start@ + relative@,
{
}

/// A position of the source inside a window lies as far from the window's start as it lies after
/// it. A position before the start is the start, and one after the end is the end.
pub proof fn law_window_positions_count_from_the_start(
    start: MediaTime,
    end: Option<MediaTime>,
    window: MediaPlaybackWindow,
    absolute: MediaTime,
    source_duration: Option<Duration>,
    position: MediaTime,
)
    requires
        call_ensures(
            MediaPlaybackWindow::new,
            (start, end),
            Ok::<MediaPlaybackWindow, MediaPlaybackWindowError>(window),
        ),
        call_ensures(
            MediaPlaybackWindow::relative_position,
            (window, absolute, source_duration),
            position,
        ),
        0 <= start@,
        0 <= absolute@,
    ensures
        absolute@ <= start@ ==> position@ == 0,
        end matches Some(end) ==> start@ <= absolute@ <= end@ ==> position@ == absolute@ - start@,
        end matches Some(end) ==> absolute@ > end@ ==> position@ == end@ - start@,
        end is None && source_duration is Some && start@ <= absolute@ <= source_duration->0@
            ==> position@ == absolute@ - start@,
        end is None && source_duration is Some && start@ <= source_duration->0@ < absolute@
            ==> position@ == source_duration->0@ - start@,
        end is None && (source_duration is None || source_duration->0@ < start@) && start@
            <= absolute@ ==> position@ == absolute@ - start@,
{
}

/// Two positions of a window that are not cut lie as far apart in the source as in the window.
pub proof fn law_positions_keep_their_distance(
    window: MediaPlaybackWindow,
    source_duration: Option<Duration>,
    nearer: MediaTime,
    farther: MediaTime,
    nearer_position: MediaTime,
    farther_position: MediaTime,
    length: Option<MediaDuration>,
)
    requires
        call_ensures(
            MediaPlaybackWindow::absolute_position,
            (window, nearer, source_duration),
            nearer_position,
        ),
        call_ensures(
            MediaPlaybackWindow::absolute_position,
            (window, farther, source_duration),
            farther_position,
        ),
        call_ensures(MediaPlaybackWindow::relative_duration, (window, source_duration), length),
        0 <= nearer@ <= farther@,
        length matches Some(length) ==> farther@ <= length@,
        farther_position@ < 18_446_744_073_709_551_615_999_999_999,
    ensures
        farther_position@ - nearer_position@ == farther@ - nearer@,
{
}

/// A window is as long as from its start to its end, or else to the end of the source. It has a
/// length exactly where such an end is known and does not lie before the start. Only a window
/// whose end lies after its start exists, and it lies inside a source that its start lies before
/// the end of and that does not end before it.
pub proof fn law_window_lies_between_its_bounds(
    start: MediaTime,
    end: Option<MediaTime>,
    made: Result<MediaPlaybackWindow, MediaPlaybackWindowError>,
    source_duration: Option<Duration>,
    length: Option<MediaDuration>,
    valid: Result<(), MediaPlaybackWindowSourceError>,
)
    requires
        call_ensures(MediaPlaybackWindow::new, (start, end), made),
        made matches Ok(window) ==> call_ensures(
            MediaPlaybackWindow::relative_duration,
            (window, source_duration),
            length,
        ) && call_ensures(
            MediaPlaybackWindow::validate_source_duration,
            (window, source_duration),
            valid,
        ),
    ensures
        made is Ok <==> (end is None || start@ < end->0@),
        made is Ok && end is Some ==> length is Some && length->0@ == end->0@ - start@,
        made is Ok && end is None && source_duration is Some && start@ <= source_duration->0@
            ==> length is Some && length->0@ == source_duration->0@ - start@,
        made is Ok && end is None && (source_duration is None || source_duration->0@ < start@)
            ==> length is None,
        made is Ok ==> (valid is Ok <==> (source_duration is None || (start@
            < source_duration->0@ && (end is None || end->0@ <= source_duration->0@)))),
        made is Ok && valid is Err ==> (valid->Err_0 is StartOutsideSource <==> start@
            >= source_duration->0@),
{
}

/// A frame is admitted from the start on and before the end, and a packet anywhere before the
/// end.
pub proof fn law_window_admits_what_lies_before_its_end(
    start: MediaTime,
    end: Option<MediaTime>,
    window: MediaPlaybackWindow,
    pts: Duration,
    frame: bool,
    packet: bool,
)
    requires
        call_ensures(
            MediaPlaybackWindow::new,
            (start, end),
            Ok::<MediaPlaybackWindow, MediaPlaybackWindowError>(window),
        ),
        call_ensures(MediaPlaybackWindow::admits_frame_at, (window, pts), frame),
        call_ensures(MediaPlaybackWindow::admits_packet_at, (window, pts), packet),
    ensures
        packet <==> (end is None || pts@ < end->0@),
        frame <==> start@ <= pts@ && (end is None || pts@ < end->0@),
{
}

/// Playback has reached the end exactly when every selected track has, and one is selected: a
/// track that has reached it stays there until a new start.
pub proof fn law_window_ends_with_its_last_selected_track(
    before: PlaybackWindowEndState,
    after: PlaybackWindowEndState,
    kind: TrackKind,
    audio: bool,
    video: bool,
    ended_before: bool,
    ended: bool,
)
    requires
        exists|state: &mut PlaybackWindowEndState|
            *state == before && *final(state) == after && #[trigger] call_ensures(
                PlaybackWindowEndState::note_selected_track_end,
                (state, kind),
                (),
            ),
        call_ensures(
            PlaybackWindowEndState::all_selected_tracks_ended,
            (&before, audio, video),
            ended_before,
        ),
        call_ensures(
            PlaybackWindowEndState::all_selected_tracks_ended,
            (&after, audio, video),
            ended,
        ),
    ensures
        ended_before ==> ended,
        !audio && !video ==> !ended,
        kind is Audio && audio && !video ==> ended,
        kind is Video && video && !audio ==> ended,
        kind is Audio && video && !before.video_end_seen ==> !ended,
        kind is Video && audio && !before.audio_end_seen ==> !ended,
        audio && video && kind is Audio && before.video_end_seen ==> ended,
        audio && video && kind is Video && before.audio_end_seen ==> ended,
{
}

/// The texts of the errors of a window that does not lie inside its source.
pub proof fn law_windows_outside_the_source_are_told(
    error: MediaPlaybackWindowSourceError,
    text: String,
)
    requires
        call_ensures(MediaPlaybackWindowSourceError::message, (&error,), text),
    ensures
        error is StartOutsideSource ==> text@ == "playback window start находится вне media source"@,
        error is EndOutsideSource ==> text@ == "playback window end находится вне media source"@,
{
}

} // verus!
