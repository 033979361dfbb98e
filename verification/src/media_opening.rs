//! Media that was opened outside the player and waits to be installed.
pub mod prefetched_demuxer;

use crate::command::MediaSource;
use crate::demux::{
    clone_tracks, DemuxReadEvent, DemuxSeekRequest, DemuxSeekResult, DemuxSeekability, Demuxer,
    MediaMetadata, TrackInfo,
};
use crate::media::{MediaTime, TrackKind, VideoCodec};
use crate::path::{characters, clone_path, display, file_title, is_file_title};
use crate::playback_window::{MediaPlaybackWindow, MediaPlaybackWindowSourceError};
use crate::text::starts_with;
use crate::time::Duration;
use prefetched_demuxer::PrefetchedDemuxer;
use std::collections::VecDeque;
use std::path::PathBuf;
use vstd::prelude::*;
use vstd::string::StrSliceExecFns;

verus! {

/// Kind of a source.
#[derive(Debug, Clone, Copy, PartialEq, Eq, Structural)]
pub enum MediaSourceKind {
    /// A local file.
    LocalFile,
    /// A network address.
    Remote,
    /// Another source outside the player.
    External,
}

/// What may be shown of a source. It holds nothing with which the source could be opened again.
#[derive(Debug, Clone, PartialEq, Eq)]
pub struct MediaSourceInfo {
    /// Kind of the source.
    pub kind: MediaSourceKind,
    /// Place to show; a network address without query and fragment.
    pub display_location: String,
    /// Size, where it is known.
    pub size_bytes: Option<u64>,
}

/// The identity of an opened source.
#[derive(Debug)]
pub enum PreparedMediaSource {
    /// A local file.
    LocalFile {
        /// Path of the file.
        path: PathBuf,
        /// Size of the file, where it could be read.
        size_bytes: Option<u64>,
    },
    /// A source that a service opened, by its label.
    ExternalLabel(String),
}

/// Whether a character begins the query or the fragment of a network address.
pub open spec fn ends_location(c: char) -> bool {
    c == '?' || c == '#'
}

/// A label up to its query or fragment.
pub open spec fn location_part(label: Seq<char>) -> Seq<char>
    decreases label.len(),
{
    if label.len() == 0 || ends_location(label[0]) {
        Seq::empty()
    } else {
        seq![label[0]] + location_part(label.drop_first())
    }
}

/// Whether a label is a network address.
pub open spec fn is_remote(label: Seq<char>) -> bool {
    "http://"@.is_prefix_of(label) || "https://"@.is_prefix_of(label)
}

/// A label up to its query or fragment.
fn display_location(label: &str) -> (r: String)
    ensures
        r@ == location_part(label@),
{
    let length: usize = label.unicode_len();
    let mut end: usize = 0;
    while end < length
        invariant_except_break
            end <= length,
            length == label@.len(),
            forall|i: int| 0 <= i < end ==> !ends_location(#[trigger] label@[i]),
        ensures
            end <= length,
            length == label@.len(),
            forall|i: int| 0 <= i < end ==> !ends_location(#[trigger] label@[i]),
            end < length ==> ends_location(label@[end as int]),
        decreases length - end,
    {
        let c = label.get_char(end);
        if c == '?' || c == '#' {
            break;
        }
        end = end + 1;
    }
    proof {
        lemma_location_part(label@, end as int);
    }
    label.substring_char(0, end).to_owned()
}

/// The part of a label before the first character that ends it.
proof fn lemma_location_part(label: Seq<char>, end: int)
    requires
        0 <= end <= label.len(),
        forall|i: int| 0 <= i < end ==> !ends_location(#[trigger] label[i]),
        end < label.len() ==> ends_location(label[end]),
    ensures
        location_part(label) == label.subrange(0, end),
    decreases label.len(),
{
    if end > 0 {
        assert(!ends_location(label[0]));
        let rest = label.drop_first();
        assert forall|i: int| 0 <= i < end - 1 implies !ends_location(#[trigger] rest[i]) by {
            assert(rest[i] == label[i + 1]);
        }
        lemma_location_part(rest, end - 1);
        assert(label.subrange(0, end) =~= seq![label[0]] + rest.subrange(0, end - 1));
    } else {
        assert(label.subrange(0, end) =~= Seq::empty());
    }
}

/// Whether this may be shown of a source: of a file its path and its size, of another source its
/// label up to the query or fragment.
pub open spec fn source_shown(source: PreparedMediaSource, info: MediaSourceInfo) -> bool {
    match source {
        PreparedMediaSource::LocalFile { path, size_bytes, .. } => {
            &&& info.kind == MediaSourceKind::LocalFile
            &&& info.display_location@ == characters(path)
            &&& info.size_bytes == size_bytes
        },
        PreparedMediaSource::ExternalLabel(label) => {
            &&& info.kind == if is_remote(label@) {
                MediaSourceKind::Remote
            } else {
                MediaSourceKind::External
            }
            &&& info.display_location@ == location_part(label@)
            &&& info.size_bytes is None
        },
    }
}

impl PreparedMediaSource {
    /// What may be shown of the source.
    pub fn source_info(&self) -> (r: MediaSourceInfo)
        ensures
            source_shown(*self, r),
    {
        match self {
            PreparedMediaSource::LocalFile { path, size_bytes, .. } => MediaSourceInfo {
                kind: MediaSourceKind::LocalFile,
                display_location: display(path),
                size_bytes: *size_bytes,
            },
            PreparedMediaSource::ExternalLabel(label) => {
                let remote = starts_with(label.as_str(), "http://") || starts_with(
                    label.as_str(),
                    "https://",
                );
                MediaSourceInfo {
                    kind: if remote {
                        MediaSourceKind::Remote
                    } else {
                        MediaSourceKind::External
                    },
                    display_location: display_location(label.as_str()),
                    size_bytes: None,
                }
            },
        }
    }

    /// The text by which the source is shown.
    pub open spec fn spec_label(self) -> Seq<char> {
        match self {
            PreparedMediaSource::LocalFile { path, .. } => characters(path),
            PreparedMediaSource::ExternalLabel(label) => label@,
        }
    }

    /// The source as commands and events name it.
    pub open spec fn spec_media_source(self) -> MediaSource {
        match self {
            PreparedMediaSource::LocalFile { path, .. } => MediaSource::LocalFile(path),
            PreparedMediaSource::ExternalLabel(label) => MediaSource::ExternalLabel(label),
        }
    }

    /// Whether a text is the title of the medium: the name of the file, or the label.
    pub open spec fn is_title(self, title: Option<String>) -> bool {
        match self {
            PreparedMediaSource::LocalFile { path, .. } => is_file_title(path, title),
            PreparedMediaSource::ExternalLabel(label) => title == Some(label),
        }
    }

    /// The text by which the source is shown.
    pub fn display_label(&self) -> (r: String)
        ensures
            r@ == self.spec_label(),
    {
        match self {
            PreparedMediaSource::LocalFile { path, .. } => display(path),
            PreparedMediaSource::ExternalLabel(label) => label.clone(),
        }
    }

    /// The source as commands and events name it.
    pub fn media_source(&self) -> (r: MediaSource)
        ensures
            r == self.spec_media_source(),
    {
        match self {
            PreparedMediaSource::LocalFile { path, .. } => MediaSource::LocalFile(clone_path(path)),
            PreparedMediaSource::ExternalLabel(label) => MediaSource::ExternalLabel(label.clone()),
        }
    }

    /// The title of the medium: the name of the file, or the label.
    pub fn media_title(&self) -> (r: Option<String>)
        ensures
            self.is_title(r),
    {
        match self {
            PreparedMediaSource::LocalFile { path, .. } => file_title(path),
            PreparedMediaSource::ExternalLabel(label) => Some(label.clone()),
        }
    }

    /// The path of a local file.
    pub fn pipeline_file_path(&self) -> (r: Option<PathBuf>)
        ensures
            r == match *self {
                PreparedMediaSource::LocalFile { path, .. } => Some(path),
                PreparedMediaSource::ExternalLabel(_) => None,
            },
    {
        match self {
            PreparedMediaSource::LocalFile { path, .. } => Some(clone_path(path)),
            PreparedMediaSource::ExternalLabel(_) => None,
        }
    }

    /// The label of a source that is not a local file.
    pub fn pipeline_source_label(&self) -> (r: Option<String>)
        ensures
            r == match *self {
                PreparedMediaSource::LocalFile { .. } => None,
                PreparedMediaSource::ExternalLabel(label) => Some(label),
            },
    {
        match self {
            PreparedMediaSource::LocalFile { .. } => None,
            PreparedMediaSource::ExternalLabel(label) => Some(label.clone()),
        }
    }

    /// What is said when the medium has no usable video track.
    pub fn missing_video_track_message(&self) -> (r: &'static str)
        ensures
            r@ == match self {
                PreparedMediaSource::LocalFile { .. } => "Поддерживаемый video track не найден"@,
                PreparedMediaSource::ExternalLabel(_) => {
                    "Поддерживаемый video track не найден в streaming demuxer"@
                },
            },
    {
        match self {
            PreparedMediaSource::LocalFile { .. } => "Поддерживаемый video track не найден",
            PreparedMediaSource::ExternalLabel(_) => {
                "Поддерживаемый video track не найден в streaming demuxer"
            },
        }
    }
}

/// The place of a format in a list of preferred ones, or the length of the list.
pub open spec fn preference(preferred: Seq<VideoCodec>, codec: VideoCodec) -> nat
    decreases preferred.len(),
{
    if preferred.len() == 0 || preferred[0] == codec {
        0
    } else {
        1 + preference(preferred.drop_first(), codec)
    }
}

/// The rank of a track: video tracks by the place of their format in the list, those of another
/// format after them, and all other tracks last.
pub open spec fn track_rank<T>(preferred: Seq<VideoCodec>, track: TrackInfo<T>) -> nat {
    if track.kind != TrackKind::Video {
        usize::MAX as nat
    } else {
        match track.video_codec {
            Some(codec) => preference(preferred, codec),
            None => preferred.len(),
        }
    }
}

/// The tracks of one rank, in their order.
pub open spec fn of_rank<T>(
    preferred: Seq<VideoCodec>,
    tracks: Seq<TrackInfo<T>>,
    rank: nat,
) -> Seq<TrackInfo<T>> {
    tracks.filter(|track: TrackInfo<T>| track_rank(preferred, track) == rank)
}

/// Whether no track stands after one of a higher rank.
pub open spec fn ranks_ascend<T>(preferred: Seq<VideoCodec>, tracks: Seq<TrackInfo<T>>) -> bool {
    forall|i: int, j: int|
        #![trigger tracks[i], tracks[j]]
        0 <= i < j < tracks.len() ==> track_rank(preferred, tracks[i]) <= track_rank(
            preferred,
            tracks[j],
        )
}

/// Whether one list of tracks is the other one put in order of rank, where tracks of one rank
/// keep the order that they had.
pub open spec fn is_stable_order<T>(
    preferred: Seq<VideoCodec>,
    before: Seq<TrackInfo<T>>,
    after: Seq<TrackInfo<T>>,
) -> bool {
    &&& ranks_ascend(preferred, after)
    &&& forall|rank: nat| #[trigger]
        of_rank(preferred, after, rank) == of_rank(preferred, before, rank)
}

/// The place of a format in a list of preferred ones, or the length of the list.
fn preferred_position(preferred: &[VideoCodec], codec: VideoCodec) -> (r: usize)
    ensures
        r == preference(preferred@, codec),
        r <= preferred@.len(),
{
    let mut index: usize = 0;
    proof {
        assert(preferred@.skip(0) =~= preferred@);
    }
    while index < preferred.len()
        invariant
            index <= preferred@.len(),
            preference(preferred@, codec) == index + preference(preferred@.skip(index as int), codec),
        decreases preferred@.len() - index,
    {
        assert(preferred@.skip(index as int)[0] == preferred@[index as int]);
        if preferred[index] == codec {
            return index;
        }
        assert(preferred@.skip(index as int).drop_first() =~= preferred@.skip(index + 1));
        index = index + 1;
    }
    index
}

/// The rank of a track.
fn rank_of_track<T>(preferred: &[VideoCodec], track: &TrackInfo<T>) -> (r: usize)
    ensures
        r == track_rank(preferred@, *track),
{
    if track.kind != TrackKind::Video {
        return usize::MAX;
    }
    match track.video_codec {
        Some(codec) => preferred_position(preferred, codec),
        None => preferred.len(),
    }
}

/// Puts tracks in order of rank. Tracks of one rank keep the order that they had.
pub fn order_by_preference<T>(tracks: &Vec<TrackInfo<T>>, preferred: &[VideoCodec]) -> (r: Vec<
    TrackInfo<T>,
>)
    ensures
        is_stable_order(preferred@, tracks@, r@),
        r@.len() == tracks@.len(),
{
    let mut ordered: Vec<TrackInfo<T>> = Vec::new();
    let mut index: usize = 0;
    assert(tracks@.take(0) =~= ordered@);
    while index < tracks.len()
        invariant
            index <= tracks@.len(),
            ordered@.len() == index,
            is_stable_order(preferred@, tracks@.take(index as int), ordered@),
        decreases tracks@.len() - index,
    {
        let rank: usize = rank_of_track(preferred, &tracks[index]);
        let mut place: usize = ordered.len();
        while place > 0 && rank_of_track(preferred, &ordered[place - 1]) > rank
            invariant
                index < tracks@.len(),
                place <= ordered@.len(),
                rank == track_rank(preferred@, tracks@[index as int]),
                forall|i: int|
                    place <= i < ordered@.len() ==> track_rank(preferred@, #[trigger] ordered@[i])
                        > rank,
            decreases place,
        {
            place = place - 1;
        }
        let ghost before = ordered@;
        ordered.insert(place, tracks[index].clone());
        proof {
            assert(place > 0 ==> track_rank(preferred@, before[place - 1]) <= rank);
            lemma_inserted(preferred@, tracks@.take(index as int), before, tracks@[index as int],
                place as int);
            assert(ordered@ =~= before.take(place as int).push(tracks@[index as int])
                + before.skip(place as int));
            assert(tracks@.take(index + 1) =~= tracks@.take(index as int).push(
                tracks@[index as int],
            ));
        }
        index = index + 1;
    }
    assert(tracks@.take(index as int) =~= tracks@);
    ordered
}

/// A track goes behind those of its rank and before those of a higher one.
proof fn lemma_inserted<T>(
    preferred: Seq<VideoCodec>,
    before: Seq<TrackInfo<T>>,
    ordered: Seq<TrackInfo<T>>,
    track: TrackInfo<T>,
    place: int,
)
    requires
        is_stable_order(preferred, before, ordered),
        0 <= place <= ordered.len(),
        forall|i: int|
            place <= i < ordered.len() ==> track_rank(preferred, #[trigger] ordered[i])
                > track_rank(preferred, track),
        place > 0 ==> track_rank(preferred, ordered[place - 1]) <= track_rank(preferred, track),
    ensures
        is_stable_order(
            preferred,
            before.push(track),
            ordered.take(place).push(track) + ordered.skip(place),
        ),
{
    broadcast use vstd::seq_lib::group_filter_ensures;

    let head = ordered.take(place);
    let tail = ordered.skip(place);
    let after = head.push(track) + tail;
    let own = track_rank(preferred, track);
    assert forall|i: int, j: int|
        #![trigger after[i], after[j]]
        0 <= i < j < after.len() implies track_rank(preferred, after[i]) <= track_rank(
        preferred,
        after[j],
    ) by {
        let a = if i < place {
            ordered[i]
        } else if i == place {
            track
        } else {
            ordered[i - 1]
        };
        let b = if j < place {
            ordered[j]
        } else if j == place {
            track
        } else {
            ordered[j - 1]
        };
        assert(after[i] == a && after[j] == b);
        if i < place && j == place {
            if i < place - 1 {
                assert(track_rank(preferred, ordered[i]) <= track_rank(
                    preferred,
                    ordered[place - 1],
                ));
            }
        }
    }
    assert forall|rank: nat| #[trigger]
        of_rank(preferred, after, rank) == of_rank(preferred, before.push(track), rank) by {
        let pred = |t: TrackInfo<T>| track_rank(preferred, t) == rank;
        Seq::filter_distributes_over_add(head.push(track), tail, pred);
        Seq::filter_distributes_over_add(head, tail, pred);
        assert(head + tail =~= ordered);
        assert(of_rank(preferred, ordered, rank) == of_rank(preferred, before, rank));
        lemma_filter_push(head, track, pred);
        lemma_filter_push(before, track, pred);
        if rank == own {
            assert(tail.filter(pred).len() == 0) by {
                if tail.filter(pred).len() > 0 {
                    let kept = tail.filter(pred)[0];
                    assert(pred(kept));
                    lemma_filter_keeps_members(tail, pred, 0);
                    let k = choose|k: int| 0 <= k < tail.len() && tail[k] == kept;
                    assert(tail[k] == ordered[place + k]);
                }
            }
            assert(tail.filter(pred) =~= Seq::empty());
            assert(head.filter(pred) + tail.filter(pred) =~= head.filter(pred));
            assert(head.filter(pred).push(track) + tail.filter(pred) =~= head.filter(pred).push(
                track,
            ));
        }
    }
}

/// What a filter keeps of a list with one more member.
proof fn lemma_filter_push<T>(
    tracks: Seq<TrackInfo<T>>,
    track: TrackInfo<T>,
    pred: spec_fn(TrackInfo<T>) -> bool,
)
    ensures
        tracks.push(track).filter(pred) == if pred(track) {
            tracks.filter(pred).push(track)
        } else {
            tracks.filter(pred)
        },
{
    reveal(Seq::filter);
    assert(tracks.push(track).drop_last() =~= tracks);
}

/// What a filter keeps was in the list.
proof fn lemma_filter_keeps_members<T>(
    tracks: Seq<TrackInfo<T>>,
    pred: spec_fn(TrackInfo<T>) -> bool,
    i: int,
)
    requires
        0 <= i < tracks.filter(pred).len(),
    ensures
        exists|k: int| 0 <= k < tracks.len() && #[trigger] tracks[k] == tracks.filter(pred)[i],
    decreases tracks.len(),
{
    reveal(Seq::filter);
    let rest = tracks.drop_last();
    if i < rest.filter(pred).len() {
        lemma_filter_keeps_members(rest, pred, i);
        let k = choose|k: int| 0 <= k < rest.len() && #[trigger] rest[k] == rest.filter(pred)[i];
        assert(tracks[k] == tracks.filter(pred)[i]);
    } else {
        assert(tracks[tracks.len() - 1] == tracks.filter(pred)[i]);
    }
}

/// Why a playback window could not be prepared.
#[derive(Debug, Clone, PartialEq, Eq)]
pub enum PlaybackWindowPreparationError<E> {
    /// The window does not lie inside the source.
    OutsideSource(MediaPlaybackWindowSourceError),
    /// The window does not start at the beginning of a source that cannot be positioned.
    SourceNotSeekable,
    /// The source could not be positioned.
    SeekFailed(E),
    /// The source was positioned after the start of the window.
    LandedAfterStart,
}

impl<E> PlaybackWindowPreparationError<E> {
    /// The text of an error that the preparation itself found.
    pub fn message(&self) -> (r: Option<&'static str>)
        ensures
            match self {
                PlaybackWindowPreparationError::SourceNotSeekable => r matches Some(text) && text@
                    == "playback window с ненулевым start требует seekable source"@,
                PlaybackWindowPreparationError::LandedAfterStart => r matches Some(text) && text@
                    == "demuxer positioned playback window after its requested absolute start"@,
                _ => r is None,
            },
    {
        match self {
            PlaybackWindowPreparationError::SourceNotSeekable => {
                Some("playback window с ненулевым start требует seekable source")
            },
            PlaybackWindowPreparationError::LandedAfterStart => {
                Some("demuxer positioned playback window after its requested absolute start")
            },
            _ => None,
        }
    }
}

/// Whether a source that was positioned for a window may be used: it may not lie after the
/// start.
pub open spec fn landing_of<E>(
    start: MediaTime,
    seek_result: Result<DemuxSeekResult, E>,
) -> Result<(), PlaybackWindowPreparationError<E>> {
    match seek_result {
        Ok(result) => if result.actual_position@ > start@ {
            Err(PlaybackWindowPreparationError::LandedAfterStart)
        } else {
            Ok(())
        },
        Err(error) => Err(PlaybackWindowPreparationError::SeekFailed(error)),
    }
}

/// Whether a source that was positioned for a window may be used: it may not lie after the
/// start.
pub fn playback_window_landing<E>(start: MediaTime, seek_result: Result<DemuxSeekResult, E>) -> (r:
    Result<(), PlaybackWindowPreparationError<E>>)
    ensures
        r == landing_of(start, seek_result),
{
    match seek_result {
        Ok(result) => {
            if result.actual_position.0 > start.0 {
                Err(PlaybackWindowPreparationError::LandedAfterStart)
            } else {
                Ok(())
            }
        },
        Err(error) => Err(PlaybackWindowPreparationError::SeekFailed(error)),
    }
}

/// What was read of a source before it was installed.
pub struct PreparedMediaPrefetchState<D: Demuxer> {
    /// Metadata before the first event.
    pub initial_media_metadata: Option<MediaMetadata>,
    /// Events in the order in which they were read.
    pub events: VecDeque<DemuxReadEvent<D::TrackDetails>>,
}

/// A source that was opened.
pub struct PreparedMedia<D: Demuxer> {
    /// Identity of the source.
    pub source: PreparedMediaSource,
    /// Demuxer of the source.
    pub demuxer: D,
    /// Tracks when it was opened.
    pub tracks: Vec<TrackInfo<D::TrackDetails>>,
    /// Length when it was opened.
    pub duration: Option<Duration>,
    /// Whether it could be positioned when it was opened.
    pub seekability: DemuxSeekability,
    /// Part of the source that is to be played.
    pub playback_window: Option<MediaPlaybackWindow>,
    /// What was read of it.
    pub prefetch_state: Option<PreparedMediaPrefetchState<D>>,
    /// What may be shown of it.
    pub source_info: MediaSourceInfo,
}

/// The demuxer of an installed source.
pub enum PreparedDemuxer<D: Demuxer> {
    /// The source's own.
    Direct(D),
    /// The source's own behind the events that were read of it.
    Prefetched(PrefetchedDemuxer<D>),
}

/// What a prepared source hands to the player.
pub struct PreparedMediaSlots<D: Demuxer> {
    /// Demuxer.
    pub demuxer: PreparedDemuxer<D>,
    /// Path of a local file.
    pub file_path: Option<PathBuf>,
    /// Label of another source.
    pub source_label: Option<String>,
    /// Tracks.
    pub tracks: Vec<TrackInfo<D::TrackDetails>>,
    /// What may be shown of the source.
    pub source_info: MediaSourceInfo,
    /// Part of the source that is to be played.
    pub playback_window: Option<MediaPlaybackWindow>,
}

impl<D: Demuxer> PreparedMedia<D> {
    /// The events that were read of the source.
    pub open spec fn prefetched(self) -> Seq<DemuxReadEvent<D::TrackDetails>> {
        match self.prefetch_state {
            Some(state) => state.events@,
            None => Seq::empty(),
        }
    }

    /// A source with what its demuxer says of it.
    pub fn from_snapshots(
        source: PreparedMediaSource,
        demuxer: D,
        tracks: Vec<TrackInfo<D::TrackDetails>>,
        duration: Option<Duration>,
        seekability: DemuxSeekability,
    ) -> (r: Self)
        ensures
            r.source == source,
            r.demuxer == demuxer,
            r.tracks == tracks,
            r.duration == duration,
            r.seekability == seekability,
            r.playback_window is None,
            r.prefetch_state is None,
            source_shown(source, r.source_info),
    {
        let source_info = source.source_info();
        PreparedMedia {
            source,
            demuxer,
            tracks,
            duration,
            seekability,
            playback_window: None,
            prefetch_state: None,
            source_info,
        }
    }

    /// Puts the video tracks in the order of preferred formats. Identities of tracks and the
    /// order of all others stay as they are.
    pub fn with_preferred_video_codecs(self, preferred_codecs: &[VideoCodec]) -> (r: Self)
        ensures
            is_stable_order(preferred_codecs@, self.tracks@, r.tracks@),
            r == (PreparedMedia { tracks: r.tracks, ..self }),
    {
        let tracks = order_by_preference(&self.tracks, preferred_codecs);
        PreparedMedia { tracks, ..self }
    }

    /// The text by which the source is shown.
    pub fn source_label(&self) -> (r: String)
        ensures
            r@ == self.source.spec_label(),
    {
        self.source.display_label()
    }

    /// The source as commands and events name it.
    pub fn media_source(&self) -> (r: MediaSource)
        ensures
            r == match self.source {
                PreparedMediaSource::LocalFile { path, .. } => MediaSource::LocalFile(path),
                PreparedMediaSource::ExternalLabel(label) => MediaSource::ExternalLabel(label),
            },
    {
        self.source.media_source()
    }

    /// The title of the medium.
    pub fn media_title(&self) -> (r: Option<String>)
        ensures
            self.source.is_title(r),
    {
        self.source.media_title()
    }

    /// The tracks.
    pub fn tracks(&self) -> (r: &[TrackInfo<D::TrackDetails>])
        ensures
            r@ == self.tracks@,
    {
        self.tracks.as_slice()
    }

    /// The length.
    pub fn duration(&self) -> (r: Option<Duration>)
        ensures
            r == self.duration,
    {
        self.duration
    }

    /// Whether the source can be positioned.
    pub fn seekability(&self) -> (r: DemuxSeekability)
        ensures
            r == self.seekability,
    {
        self.seekability
    }

    /// The part of the source that is to be played.
    pub fn playback_window(&self) -> (r: Option<MediaPlaybackWindow>)
        ensures
            r == self.playback_window,
    {
        self.playback_window
    }

    /// The source with a part that is to be played.
    pub fn with_playback_window(self, playback_window: MediaPlaybackWindow) -> (r: Self)
        ensures
            r == (PreparedMedia { playback_window: Some(playback_window), ..self }),
    {
        PreparedMedia { playback_window: Some(playback_window), ..self }
    }

    /// What is said when the medium has no usable video track.
    pub fn missing_video_track_message(&self) -> (r: &'static str)
        ensures
            r@ == match self.source {
                PreparedMediaSource::LocalFile { .. } => "Поддерживаемый video track не найден"@,
                PreparedMediaSource::ExternalLabel(_) => {
                    "Поддерживаемый video track не найден в streaming demuxer"@
                },
            },
    {
        self.source.missing_video_track_message()
    }

    /// Keeps an event that was read of the source, to be replayed once the source is installed.
    /// That nothing is there at the moment is not worth keeping. `metadata` is what the source
    /// says before the first event that is kept.
    pub fn keep_prefetched_event(
        &mut self,
        event: &DemuxReadEvent<D::TrackDetails>,
        metadata: Option<MediaMetadata>,
    )
        ensures
            *final(self) == (PreparedMedia {
                prefetch_state: final(self).prefetch_state,
                ..*old(self)
            }),
            *event is TemporarilyUnavailable ==> final(self).prefetch_state == old(self).prefetch_state,
            !(*event is TemporarilyUnavailable) ==> {
                &&& final(self).prefetch_state is Some
                &&& final(self).prefetched().len() == old(self).prefetched().len() + 1
                &&& final(self).prefetched().drop_last() == old(self).prefetched()
                &&& final(self).prefetched().last().same(*event)
                &&& final(self).prefetch_state->0.initial_media_metadata == match old(self).prefetch_state {
                    Some(state) => state.initial_media_metadata,
                    None => metadata,
                }
            },
    {
        if let DemuxReadEvent::TemporarilyUnavailable(_) = event {
            return ;
        }
        let kept = event.clone();
        let mut state = match self.prefetch_state.take() {
            Some(state) => state,
            None => PreparedMediaPrefetchState {
                initial_media_metadata: metadata,
                events: VecDeque::new(),
            },
        };
        let ghost before = state.events@;
        state.events.push_back(kept);
        assert(state.events@.drop_last() =~= before);
        self.prefetch_state = Some(state);
    }

    /// Takes the source apart for the player. Events that were read of it go in front of its
    /// demuxer.
    pub fn into_pipeline_slots(self) -> (r: PreparedMediaSlots<D>)
        ensures
            r.file_path == match self.source {
                PreparedMediaSource::LocalFile { path, .. } => Some(path),
                PreparedMediaSource::ExternalLabel(_) => None,
            },
            r.source_label == match self.source {
                PreparedMediaSource::LocalFile { .. } => None,
                PreparedMediaSource::ExternalLabel(label) => Some(label),
            },
            r.tracks == self.tracks,
            r.source_info == self.source_info,
            r.playback_window == self.playback_window,
            match r.demuxer {
                PreparedDemuxer::Direct(demuxer) => {
                    &&& demuxer == self.demuxer
                    &&& self.prefetched().len() == 0
                },
                PreparedDemuxer::Prefetched(demuxer) => {
                    &&& self.prefetched().len() > 0
                    &&& demuxer.source() == self.demuxer
                    &&& demuxer.replay() == self.prefetched()
                    &&& demuxer.visible().tracks == self.tracks@
                    &&& demuxer.visible().duration == self.duration
                    &&& demuxer.visible().seekability == self.seekability
                    &&& demuxer.visible().media_metadata
                        == self.prefetch_state->0.initial_media_metadata
                },
            },
    {
        let file_path = self.source.pipeline_file_path();
        let source_label = self.source.pipeline_source_label();
        let demuxer = match self.prefetch_state {
            Some(prefetch_state) => {
                if prefetch_state.events.len() > 0 {
                    PreparedDemuxer::Prefetched(
                        PrefetchedDemuxer::new(
                            self.demuxer,
                            clone_tracks(&self.tracks),
                            self.duration,
                            self.seekability,
                            prefetch_state.initial_media_metadata,
                            prefetch_state.events,
                        ),
                    )
                } else {
                    PreparedDemuxer::Direct(self.demuxer)
                }
            },
            None => PreparedDemuxer::Direct(self.demuxer),
        };
        PreparedMediaSlots {
            demuxer,
            file_path,
            source_label,
            tracks: self.tracks,
            source_info: self.source_info,
            playback_window: self.playback_window,
        }
    }
}

impl<D: Demuxer> PreparedMedia<D> {
    /// Asks a demuxer once for what it says of its source.
    pub fn from_open_demuxer(source: PreparedMediaSource, demuxer: D) -> (r: Self)
        ensures
            r.source == source,
            r.demuxer == demuxer,
            call_ensures(<D as Demuxer>::tracks, (&demuxer,), r.tracks),
            call_ensures(<D as Demuxer>::duration, (&demuxer,), r.duration),
            call_ensures(<D as Demuxer>::seekability, (&demuxer,), r.seekability),
            source_shown(r.source, r.source_info),
            r.playback_window is None,
            r.prefetch_state is None,
    {
        let tracks = demuxer.tracks();
        let duration = demuxer.duration();
        let seekability = demuxer.seekability();
        Self::from_snapshots(source, demuxer, tracks, duration, seekability)
    }

    /// A local file that was opened.
    pub fn from_local_file(
        path: PathBuf,
        size_bytes: Option<u64>,
        demuxer: D,
    ) -> (r: Self)
        ensures
            r.source == (PreparedMediaSource::LocalFile { path, size_bytes }),
            r.demuxer == demuxer,
            call_ensures(<D as Demuxer>::tracks, (&demuxer,), r.tracks),
            call_ensures(<D as Demuxer>::duration, (&demuxer,), r.duration),
            call_ensures(<D as Demuxer>::seekability, (&demuxer,), r.seekability),
            source_shown(r.source, r.source_info),
            r.playback_window is None,
            r.prefetch_state is None,
    {
        Self::from_open_demuxer(
            PreparedMediaSource::LocalFile { path, size_bytes },
            demuxer,
        )
    }

    /// A source that a service opened.
    pub fn from_external_label(label: String, demuxer: D) -> (r: Self)
        ensures
            r.source == PreparedMediaSource::ExternalLabel(label),
            r.demuxer == demuxer,
            call_ensures(<D as Demuxer>::tracks, (&demuxer,), r.tracks),
            call_ensures(<D as Demuxer>::duration, (&demuxer,), r.duration),
            call_ensures(<D as Demuxer>::seekability, (&demuxer,), r.seekability),
            source_shown(r.source, r.source_info),
            r.playback_window is None,
            r.prefetch_state is None,
    {
        Self::from_open_demuxer(PreparedMediaSource::ExternalLabel(label), demuxer)
    }

    /// Reads the source on and keeps what it hands over for later.
    pub fn prefetch_next_event_for_video_probe(&mut self) -> (r: Result<
        DemuxReadEvent<D::TrackDetails>,
        D::Error,
    >)
        ensures
            *final(self) == (PreparedMedia {
                demuxer: final(self).demuxer,
                prefetch_state: final(self).prefetch_state,
                ..*old(self)
            }),
            exists|demuxer: &mut D|
                *demuxer == old(self).demuxer && *final(demuxer) == final(self).demuxer
                    && #[trigger] call_ensures(<D as Demuxer>::next_event, (demuxer,), r),
            match r {
                Err(_) => final(self).prefetch_state == old(self).prefetch_state,
                Ok(event) => if event is TemporarilyUnavailable {
                    final(self).prefetch_state == old(self).prefetch_state
                } else {
                    &&& final(self).prefetch_state is Some
                    &&& final(self).prefetched().len() == old(self).prefetched().len() + 1
                    &&& final(self).prefetched().drop_last() == old(self).prefetched()
                    &&& final(self).prefetched().last().same(event)
                    &&& match old(self).prefetch_state {
                        Some(state) => final(self).prefetch_state->0.initial_media_metadata
                            == state.initial_media_metadata,
                        None => call_ensures(
                            <D as Demuxer>::media_metadata,
                            (&old(self).demuxer,),
                            final(self).prefetch_state->0.initial_media_metadata,
                        ),
                    }
                },
            },
    {
        let metadata = if self.prefetch_state.is_none() {
            self.demuxer.media_metadata()
        } else {
            None
        };
        match self.demuxer.next_event() {
            Ok(event) => {
                self.keep_prefetched_event(&event, metadata);
                Ok(event)
            },
            Err(error) => Err(error),
        }
    }

    /// Positions the source at the start of the part that is to be played. A source that was
    /// positioned elsewhere has no use for what was read of it.
    pub fn prepare_playback_window(&mut self) -> (r: Result<
        (),
        PlaybackWindowPreparationError<D::Error>,
    >)
        ensures
            *final(self) == (PreparedMedia {
                demuxer: final(self).demuxer,
                prefetch_state: final(self).prefetch_state,
                ..*old(self)
            }),
            match old(self).playback_window {
                None => r is Ok && *final(self) == *old(self),
                Some(window) => match window.fits_source(old(self).duration) {
                    Some(error) => {
                        &&& r == Err::<(), _>(
                            PlaybackWindowPreparationError::<D::Error>::OutsideSource(error),
                        )
                        &&& *final(self) == *old(self)
                    },
                    None => if window.spec_start()@ == 0 {
                        r is Ok && *final(self) == *old(self)
                    } else if old(self).seekability != DemuxSeekability::Seekable {
                        &&& r == Err::<(), _>(
                            PlaybackWindowPreparationError::<D::Error>::SourceNotSeekable,
                        )
                        &&& *final(self) == *old(self)
                    } else {
                        &&& exists|demuxer: &mut D, landed: Result<DemuxSeekResult, D::Error>|
                            *demuxer == old(self).demuxer && *final(demuxer)
                                == final(self).demuxer && #[trigger] call_ensures(
                                <D as Demuxer>::seek,
                                (demuxer, window.spec_start().0),
                                landed,
                            ) && r == #[trigger] landing_of(window.spec_start(), landed)
                        &&& r is Ok ==> final(self).prefetch_state is None
                        &&& r is Err ==> final(self).prefetch_state == old(self).prefetch_state
                    },
                },
            },
    {
        let playback_window = match self.playback_window {
            Some(playback_window) => playback_window,
            None => {
                return Ok(());
            },
        };
        match playback_window.validate_source_duration(self.duration) {
            Ok(()) => {},
            Err(error) => {
                return Err(PlaybackWindowPreparationError::OutsideSource(error));
            },
        }
        let start = playback_window.start();
        if start.as_duration().is_zero() {
            return Ok(());
        }
        if self.seekability != DemuxSeekability::Seekable {
            return Err(PlaybackWindowPreparationError::SourceNotSeekable);
        }
        let seek_result = self.demuxer.seek(start.as_duration());
        match playback_window_landing(start, seek_result) {
            Ok(()) => {
                self.prefetch_state = None;
                Ok(())
            },
            Err(error) => Err(error),
        }
    }
}

impl<D: Demuxer> Demuxer for PreparedDemuxer<D> {
    type Error = D::Error;

    type TrackDetails = D::TrackDetails;

    fn tracks(&self) -> (r: Vec<TrackInfo<D::TrackDetails>>)
        ensures
            match self {
                PreparedDemuxer::Direct(demuxer) => call_ensures(<D as Demuxer>::tracks, (demuxer,), r),
                PreparedDemuxer::Prefetched(demuxer) => r@ == demuxer.visible().tracks,
            },
    {
        match self {
            PreparedDemuxer::Direct(demuxer) => demuxer.tracks(),
            PreparedDemuxer::Prefetched(demuxer) => demuxer.tracks(),
        }
    }

    fn duration(&self) -> (r: Option<Duration>)
        ensures
            match self {
                PreparedDemuxer::Direct(demuxer) => call_ensures(<D as Demuxer>::duration, (demuxer,), r),
                PreparedDemuxer::Prefetched(demuxer) => r == demuxer.visible().duration,
            },
    {
        match self {
            PreparedDemuxer::Direct(demuxer) => demuxer.duration(),
            PreparedDemuxer::Prefetched(demuxer) => demuxer.duration(),
        }
    }

    fn media_metadata(&self) -> (r: Option<MediaMetadata>)
        ensures
            match self {
                PreparedDemuxer::Direct(demuxer) => call_ensures(<D as Demuxer>::media_metadata, (demuxer,), r),
                PreparedDemuxer::Prefetched(demuxer) => r == demuxer.visible().media_metadata,
            },
    {
        match self {
            PreparedDemuxer::Direct(demuxer) => demuxer.media_metadata(),
            PreparedDemuxer::Prefetched(demuxer) => demuxer.media_metadata(),
        }
    }

    fn seekability(&self) -> (r: DemuxSeekability)
        ensures
            match self {
                PreparedDemuxer::Direct(demuxer) => call_ensures(<D as Demuxer>::seekability, (demuxer,), r),
                PreparedDemuxer::Prefetched(demuxer) => r == demuxer.visible().seekability,
            },
    {
        match self {
            PreparedDemuxer::Direct(demuxer) => demuxer.seekability(),
            PreparedDemuxer::Prefetched(demuxer) => demuxer.seekability(),
        }
    }

    fn next_event(&mut self) -> (r: Result<DemuxReadEvent<D::TrackDetails>, D::Error>)
        ensures
            match (*old(self), *final(self)) {
                (PreparedDemuxer::Direct(before), PreparedDemuxer::Direct(after)) => exists|
                    demuxer: &mut D,
                |
                    *demuxer == before && *final(demuxer) == after && #[trigger] call_ensures(
                        <D as Demuxer>::next_event,
                        (demuxer,),
                        r,
                    ),
                (PreparedDemuxer::Prefetched(before), PreparedDemuxer::Prefetched(after)) => exists|
                    demuxer: &mut PrefetchedDemuxer<D>,
                |
                    *demuxer == before && *final(demuxer) == after && #[trigger] call_ensures(
                        <PrefetchedDemuxer<D> as Demuxer>::next_event,
                        (demuxer,),
                        r,
                    ),
                _ => false,
            },
    {
        match self {
            PreparedDemuxer::Direct(demuxer) => demuxer.next_event(),
            PreparedDemuxer::Prefetched(demuxer) => demuxer.next_event(),
        }
    }

    fn seek(&mut self, timestamp: Duration) -> (r: Result<DemuxSeekResult, D::Error>)
        ensures
            match (*old(self), *final(self)) {
                (PreparedDemuxer::Direct(before), PreparedDemuxer::Direct(after)) => exists|
                    demuxer: &mut D,
                |
                    *demuxer == before && *final(demuxer) == after && #[trigger] call_ensures(
                        <D as Demuxer>::seek,
                        (demuxer, timestamp),
                        r,
                    ),
                (PreparedDemuxer::Prefetched(before), PreparedDemuxer::Prefetched(after)) => exists|
                    demuxer: &mut PrefetchedDemuxer<D>,
                |
                    *demuxer == before && *final(demuxer) == after && #[trigger] call_ensures(
                        <PrefetchedDemuxer<D> as Demuxer>::seek,
                        (demuxer, timestamp),
                        r,
                    ),
                _ => false,
            },
    {
        match self {
            PreparedDemuxer::Direct(demuxer) => demuxer.seek(timestamp),
            PreparedDemuxer::Prefetched(demuxer) => demuxer.seek(timestamp),
        }
    }

    fn seek_with_request(&mut self, request: DemuxSeekRequest) -> (r: Result<
        DemuxSeekResult,
        D::Error,
    >)
        ensures
            match (*old(self), *final(self)) {
                (PreparedDemuxer::Direct(before), PreparedDemuxer::Direct(after)) => exists|
                    demuxer: &mut D,
                |
                    *demuxer == before && *final(demuxer) == after && #[trigger] call_ensures(
                        <D as Demuxer>::seek_with_request,
                        (demuxer, request),
                        r,
                    ),
                (PreparedDemuxer::Prefetched(before), PreparedDemuxer::Prefetched(after)) => exists|
                    demuxer: &mut PrefetchedDemuxer<D>,
                |
                    *demuxer == before && *final(demuxer) == after && #[trigger] call_ensures(
                        <PrefetchedDemuxer<D> as Demuxer>::seek_with_request,
                        (demuxer, request),
                        r,
                    ),
                _ => false,
            },
    {
        match self {
            PreparedDemuxer::Direct(demuxer) => demuxer.seek_with_request(request),
            PreparedDemuxer::Prefetched(demuxer) => demuxer.seek_with_request(request),
        }
    }
}

/// Commands and events name a prepared source by the label by which it is shown.
pub proof fn law_media_source_keeps_the_label(source: PreparedMediaSource)
    ensures
        source.spec_media_source().spec_label() == source.spec_label(),
{
}

/// Ordering by preference loses no track and makes none up: of every rank there are the same
/// tracks in the same order. Two orders of one list that keep this are the same.
pub proof fn law_stable_order_is_unique<T>(
    preferred: Seq<VideoCodec>,
    before: Seq<TrackInfo<T>>,
    first: Seq<TrackInfo<T>>,
    second: Seq<TrackInfo<T>>,
)
    requires
        is_stable_order(preferred, before, first),
        is_stable_order(preferred, before, second),
    ensures
        first == second,
    decreases first.len(),
{
    if first.len() == 0 {
        if second.len() > 0 {
            let rank = track_rank(preferred, second.last());
            lemma_last_of_rank(preferred, second, rank);
            assert(of_rank(preferred, first, rank) == of_rank(preferred, before, rank));
            assert(of_rank(preferred, second, rank) == of_rank(preferred, before, rank));
            reveal(Seq::filter);
        }
        assert(first =~= second);
    } else if second.len() == 0 {
        let rank = track_rank(preferred, first.last());
        lemma_last_of_rank(preferred, first, rank);
        assert(of_rank(preferred, first, rank) == of_rank(preferred, before, rank));
        assert(of_rank(preferred, second, rank) == of_rank(preferred, before, rank));
        reveal(Seq::filter);
    } else {
        let a = track_rank(preferred, first.last());
        let b = track_rank(preferred, second.last());
        assert(of_rank(preferred, first, a) == of_rank(preferred, before, a));
        assert(of_rank(preferred, second, a) == of_rank(preferred, before, a));
        assert(of_rank(preferred, first, b) == of_rank(preferred, before, b));
        assert(of_rank(preferred, second, b) == of_rank(preferred, before, b));
        lemma_last_of_rank(preferred, first, a);
        lemma_last_of_rank(preferred, second, b);
        // The rank of the last track is the highest rank of all.
        lemma_rank_occurs(preferred, second, a);
        lemma_rank_occurs(preferred, first, b);
        assert(a == b);
        assert(first.last() == second.last());
        let rest = first.drop_last();
        assert forall|rank: nat| #[trigger]
            of_rank(preferred, rest, rank) == of_rank(preferred, second.drop_last(), rank) by {
            assert(of_rank(preferred, first, rank) == of_rank(preferred, before, rank));
            assert(of_rank(preferred, second, rank) == of_rank(preferred, before, rank));
            lemma_drop_last_of_rank(preferred, first, rank);
            lemma_drop_last_of_rank(preferred, second, rank);
        }
        law_stable_order_is_unique(preferred, rest, rest, second.drop_last());
        assert(first =~= rest.push(first.last()));
        assert(second =~= second.drop_last().push(second.last()));
    }
}

/// The last track is the last of its rank.
proof fn lemma_last_of_rank<T>(preferred: Seq<VideoCodec>, tracks: Seq<TrackInfo<T>>, rank: nat)
    requires
        tracks.len() > 0,
        rank == track_rank(preferred, tracks.last()),
    ensures
        of_rank(preferred, tracks, rank).len() > 0,
        of_rank(preferred, tracks, rank).last() == tracks.last(),
{
    reveal(Seq::filter);
}

/// A rank of which there is a track is not above that of the last one.
proof fn lemma_rank_occurs<T>(preferred: Seq<VideoCodec>, tracks: Seq<TrackInfo<T>>, rank: nat)
    requires
        ranks_ascend(preferred, tracks),
        of_rank(preferred, tracks, rank).len() > 0,
    ensures
        tracks.len() > 0,
        rank <= track_rank(preferred, tracks.last()),
{
    broadcast use vstd::seq_lib::group_filter_ensures;

    let pred = |t: TrackInfo<T>| track_rank(preferred, t) == rank;
    let kept = tracks.filter(pred)[0];
    assert(pred(kept));
    lemma_filter_keeps_members(tracks, pred, 0);
    let k = choose|k: int| 0 <= k < tracks.len() && #[trigger] tracks[k] == kept;
    if k < tracks.len() - 1 {
        assert(track_rank(preferred, tracks[k]) <= track_rank(
            preferred,
            tracks[tracks.len() - 1],
        ));
    }
}

/// What is left of a rank without the last track.
proof fn lemma_drop_last_of_rank<T>(preferred: Seq<VideoCodec>, tracks: Seq<TrackInfo<T>>, rank: nat)
    requires
        tracks.len() > 0,
    ensures
        of_rank(preferred, tracks.drop_last(), rank) == if track_rank(preferred, tracks.last())
            == rank {
            of_rank(preferred, tracks, rank).drop_last()
        } else {
            of_rank(preferred, tracks, rank)
        },
{
    let pred = |t: TrackInfo<T>| track_rank(preferred, t) == rank;
    assert(tracks =~= tracks.drop_last().push(tracks.last()));
    lemma_filter_push(tracks.drop_last(), tracks.last(), pred);
    if pred(tracks.last()) {
        assert(tracks.filter(pred).drop_last() =~= tracks.drop_last().filter(pred));
    }
}

/// Of two video tracks in the ordered list, one whose format is preferred stands before every one
/// whose format is not in the list or not known, of two preferred ones that whose format comes
/// first in the list stands first, and every video track stands before every other track.
pub proof fn law_preferred_formats_come_first<T>(
    tracks: Vec<TrackInfo<T>>,
    preferred: &[VideoCodec],
    ordered: Vec<TrackInfo<T>>,
    i: int,
    j: int,
)
    requires
        call_ensures(order_by_preference::<T>, (&tracks, preferred), ordered),
        0 <= i < ordered@.len(),
        0 <= j < ordered@.len(),
        ordered@[i].kind is Video,
        preferred@.len() < usize::MAX,
    ensures
        !(ordered@[j].kind is Video) ==> i < j,
        ordered@[j].kind is Video && ordered@[i].video_codec is Some && preferred@.contains(
            ordered@[i].video_codec->0,
        ) && (ordered@[j].video_codec is None || !preferred@.contains(ordered@[j].video_codec->0))
            ==> i < j,
        forall|a: int, b: int|
            #![trigger preferred@[a], preferred@[b]]
            0 <= a < b < preferred@.len() && ordered@[j].kind is Video && ordered@[i].video_codec
                == Some(preferred@[a]) && ordered@[j].video_codec == Some(preferred@[b]) && (forall|
                c: int,
            |
                0 <= c < b ==> #[trigger] preferred@[c] != preferred@[b]) ==> i < j,
{
    let first = ordered@[i];
    let second = ordered@[j];
    if let Some(codec) = first.video_codec {
        lemma_preference_is_the_first_place(preferred@, codec);
    }
    if let Some(codec) = second.video_codec {
        lemma_preference_is_the_first_place(preferred@, codec);
    }
    let first_rank = track_rank(preferred@, first);
    let second_rank = track_rank(preferred@, second);
    if j <= i {
        assert(second_rank <= first_rank);
    }
    assert forall|a: int, b: int|
        #![trigger preferred@[a], preferred@[b]]
        0 <= a < b < preferred@.len() && second.kind is Video && first.video_codec == Some(
            preferred@[a],
        ) && second.video_codec == Some(preferred@[b]) && (forall|c: int|
            0 <= c < b ==> #[trigger] preferred@[c] != preferred@[b]) implies i < j by {
        assert(first_rank <= a);
        assert(second_rank >= b) by {
            if second_rank < b {
                assert(preferred@[second_rank as int] == preferred@[b]);
            }
        }
    }
}

/// The place of a format is the first at which it stands in the list; a format that is not in the
/// list has no place.
proof fn lemma_preference_is_the_first_place(preferred: Seq<VideoCodec>, codec: VideoCodec)
    ensures
        preference(preferred, codec) <= preferred.len(),
        preference(preferred, codec) < preferred.len() <==> preferred.contains(codec),
        preference(preferred, codec) < preferred.len() ==> preferred[preference(
            preferred,
            codec,
        ) as int] == codec,
        forall|i: int|
            0 <= i < preference(preferred, codec) ==> #[trigger] preferred[i] != codec,
    decreases preferred.len(),
{
    if preferred.len() > 0 {
        let rest = preferred.drop_first();
        lemma_preference_is_the_first_place(rest, codec);
        if preferred[0] != codec {
            assert forall|i: int| 0 <= i < preference(preferred, codec) implies #[trigger]
                preferred[i] != codec by {
                if i > 0 {
                    assert(rest[i - 1] != codec);
                }
            }
            if preferred.contains(codec) {
                let k = choose|k: int| 0 <= k < preferred.len() && preferred[k] == codec;
                assert(rest[k - 1] == codec);
            }
            if rest.contains(codec) {
                let k = choose|k: int| 0 <= k < rest.len() && rest[k] == codec;
                assert(preferred[k + 1] == codec);
            }
        } else {
            assert(preferred[0] == codec);
        }
    }
}

/// Ordering by preference neither loses nor adds a track.
pub proof fn law_order_keeps_every_track<T>(
    tracks: Vec<TrackInfo<T>>,
    preferred: &[VideoCodec],
    ordered: Vec<TrackInfo<T>>,
)
    requires
        call_ensures(order_by_preference::<T>, (&tracks, preferred), ordered),
    ensures
        ordered@.len() == tracks@.len(),
        forall|track: TrackInfo<T>| ordered@.contains(track) <==> #[trigger] tracks@.contains(track),
{
    assert forall|track: TrackInfo<T>| ordered@.contains(track) <==> #[trigger] tracks@.contains(
        track,
    ) by {
        let rank = track_rank(preferred@, track);
        let pred = |t: TrackInfo<T>| track_rank(preferred@, t) == rank;
        assert(of_rank(preferred@, ordered@, rank) == of_rank(preferred@, tracks@, rank));
        lemma_filter_contains(ordered@, pred, track);
        lemma_filter_contains(tracks@, pred, track);
    }
}

/// A filter keeps a member that it lets through.
proof fn lemma_filter_contains<T>(
    tracks: Seq<TrackInfo<T>>,
    pred: spec_fn(TrackInfo<T>) -> bool,
    track: TrackInfo<T>,
)
    requires
        pred(track),
    ensures
        tracks.filter(pred).contains(track) <==> tracks.contains(track),
    decreases tracks.len(),
{
    reveal(Seq::filter);
    if tracks.len() > 0 {
        let rest = tracks.drop_last();
        lemma_filter_contains(rest, pred, track);
        assert(tracks =~= rest.push(tracks.last()));
        let kept = rest.filter(pred);
        if tracks.contains(track) {
            let k = choose|k: int| 0 <= k < tracks.len() && tracks[k] == track;
            if k < rest.len() {
                assert(rest[k] == track);
                let m = choose|m: int| 0 <= m < kept.len() && kept[m] == track;
                assert(tracks.filter(pred)[m] == track);
            } else {
                assert(tracks.filter(pred)[kept.len() as int] == track);
            }
        }
        if tracks.filter(pred).contains(track) {
            let m = choose|m: int|
                0 <= m < tracks.filter(pred).len() && tracks.filter(pred)[m] == track;
            lemma_filter_keeps_members(tracks, pred, m);
            let k = choose|k: int|
                0 <= k < tracks.len() && #[trigger] tracks[k] == tracks.filter(pred)[m];
            assert(tracks[k] == track);
        }
    }
}

/// Tracks that the list does not tell apart keep their order: of two video tracks of one format,
/// of two whose formats are not in the list, and of two tracks that are no video tracks.
pub proof fn law_order_of_equals_is_kept<T>(
    tracks: Vec<TrackInfo<T>>,
    preferred: &[VideoCodec],
    ordered: Vec<TrackInfo<T>>,
    wanted: spec_fn(TrackInfo<T>) -> bool,
)
    requires
        call_ensures(order_by_preference::<T>, (&tracks, preferred), ordered),
        preferred@.len() < usize::MAX,
        (wanted == |t: TrackInfo<T>| !(t.kind is Video)) || (wanted == |t: TrackInfo<T>|
            t.kind is Video && (t.video_codec is None || !preferred@.contains(t.video_codec->0)))
            || exists|codec: VideoCodec|
            preferred@.contains(codec) && wanted == |t: TrackInfo<T>|
                t.kind is Video && t.video_codec == Some(codec),
    ensures
        ordered@.filter(wanted) == tracks@.filter(wanted),
{
    let rank: nat = if wanted == |t: TrackInfo<T>| !(t.kind is Video) {
        usize::MAX as nat
    } else if wanted == |t: TrackInfo<T>|
        t.kind is Video && (t.video_codec is None || !preferred@.contains(t.video_codec->0)) {
        preferred@.len()
    } else {
        preference(
            preferred@,
            choose|codec: VideoCodec|
                preferred@.contains(codec) && wanted == |t: TrackInfo<T>|
                    t.kind is Video && t.video_codec == Some(codec),
        )
    };
    let pred = |t: TrackInfo<T>| track_rank(preferred@, t) == rank;
    assert forall|t: TrackInfo<T>| #[trigger] wanted(t) == pred(t) by {
        if let Some(codec) = t.video_codec {
            lemma_preference_is_the_first_place(preferred@, codec);
        }
        if exists|codec: VideoCodec|
            preferred@.contains(codec) && wanted == |t: TrackInfo<T>|
                t.kind is Video && t.video_codec == Some(codec) {
            let codec = choose|codec: VideoCodec|
                preferred@.contains(codec) && wanted == |t: TrackInfo<T>|
                    t.kind is Video && t.video_codec == Some(codec);
            lemma_preference_is_the_first_place(preferred@, codec);
        }
    }
    assert(wanted =~= pred);
    assert(of_rank(preferred@, ordered@, rank) == of_rank(preferred@, tracks@, rank));
}

/// The part of a label before its query or fragment is its longest beginning without a character
/// that begins one.
proof fn lemma_location_part_is_the_longest(label: Seq<char>)
    ensures
        location_part(label).is_prefix_of(label),
        forall|i: int|
            0 <= i < location_part(label).len() ==> #[trigger] location_part(label)[i] != '?'
                && location_part(label)[i] != '#',
        location_part(label).len() < label.len() ==> label[location_part(label).len() as int] == '?'
            || label[location_part(label).len() as int] == '#',
    decreases label.len(),
{
    let part = location_part(label);
    if label.len() == 0 || ends_location(label[0]) {
        assert(part =~= label.subrange(0, 0));
    } else {
        let rest = label.drop_first();
        let rest_part = location_part(rest);
        lemma_location_part_is_the_longest(rest);
        assert forall|i: int| 0 <= i < part.len() implies #[trigger] part[i] != '?' && part[i]
            != '#' by {
            if i > 0 {
                assert(part[i] == rest_part[i - 1]);
            }
        }
        assert(rest_part =~= rest.subrange(0, rest_part.len() as int));
        assert forall|i: int| 0 <= i < part.len() implies #[trigger] part[i] == label[i] by {
            if i > 0 {
                assert(part[i] == rest_part[i - 1]);
                assert(rest.subrange(0, rest_part.len() as int)[i - 1] == rest[i - 1]);
            }
        }
        assert(part =~= label.subrange(0, part.len() as int));
        if part.len() < label.len() {
            assert(rest[rest_part.len() as int] == label[part.len() as int]);
        }
    }
}

/// Of a source that a service opened, what may be shown is the label up to its query or fragment:
/// the longest beginning without the character that begins one. It is remote exactly where the
/// label is a network address. Of a file the path and the size may be shown.
pub proof fn law_shown_location_has_no_query_and_no_fragment(
    source: PreparedMediaSource,
    info: MediaSourceInfo,
)
    requires
        call_ensures(PreparedMediaSource::source_info, (&source,), info),
    ensures
        source matches PreparedMediaSource::LocalFile { path, size_bytes } ==> {
            &&& info.kind is LocalFile
            &&& info.display_location@ == characters(path)
            &&& info.size_bytes == size_bytes
        },
        source matches PreparedMediaSource::ExternalLabel(label) ==> {
            let shown = info.display_location@;
            &&& info.size_bytes is None
            &&& info.kind is Remote || info.kind is External
            &&& info.kind is Remote <==> "http://"@.is_prefix_of(label@)
                || "https://"@.is_prefix_of(label@)
            &&& shown.is_prefix_of(label@)
            &&& forall|i: int| 0 <= i < shown.len() ==> #[trigger] shown[i] != '?' && shown[i] != '#'
            &&& shown.len() < label@.len() ==> label@[shown.len() as int] == '?'
                || label@[shown.len() as int] == '#'
        },
{
    if let PreparedMediaSource::ExternalLabel(label) = source {
        lemma_location_part_is_the_longest(label@);
    }
}

/// A source is named, shown, titled and handed to the player by what it is: a file by its path, and
/// another source by its label.
pub proof fn law_source_is_known_by_what_it_is(
    source: PreparedMediaSource,
    shown: String,
    named: MediaSource,
    title: Option<String>,
    path: Option<PathBuf>,
    label: Option<String>,
)
    requires
        call_ensures(PreparedMediaSource::display_label, (&source,), shown),
        call_ensures(PreparedMediaSource::media_source, (&source,), named),
        call_ensures(PreparedMediaSource::media_title, (&source,), title),
        call_ensures(PreparedMediaSource::pipeline_file_path, (&source,), path),
        call_ensures(PreparedMediaSource::pipeline_source_label, (&source,), label),
    ensures
        source matches PreparedMediaSource::LocalFile { path: file, .. } ==> {
            &&& shown@ == characters(file)
            &&& named == MediaSource::LocalFile(file)
            &&& path == Some(file)
            &&& label is None
            &&& is_file_title(file, title)
        },
        source matches PreparedMediaSource::ExternalLabel(text) ==> {
            &&& shown@ == text@
            &&& named == MediaSource::ExternalLabel(text)
            &&& path is None
            &&& label == Some(text)
            &&& title == Some(text)
        },
{
}

/// A source that was positioned for a window may be used exactly where it did not land after the
/// start; where it could not be positioned, the error is passed on.
pub proof fn law_window_is_landed_at_or_before_its_start<E>(
    start: MediaTime,
    landed: Result<DemuxSeekResult, E>,
    result: Result<(), PlaybackWindowPreparationError<E>>,
)
    requires
        call_ensures(playback_window_landing::<E>, (start, landed), result),
    ensures
        result is Ok <==> landed is Ok && landed->Ok_0.actual_position@ <= start@,
        result is Err && result->Err_0 is LandedAfterStart <==> landed is Ok
            && landed->Ok_0.actual_position@ > start@,
        landed is Err ==> result is Err && result->Err_0
            == PlaybackWindowPreparationError::SeekFailed(landed->Err_0),
{
}

/// A source is positioned for its window exactly where the window lies inside it, does not start at
/// its beginning, and the source can be positioned; and then at the start of the window. Where that
/// succeeded, what was read of the source is forgotten; otherwise it is kept.
pub proof fn law_window_is_prepared_at_its_start<D: Demuxer>(
    before: PreparedMedia<D>,
    after: PreparedMedia<D>,
    window: MediaPlaybackWindow,
    start: MediaTime,
    fits: Result<(), MediaPlaybackWindowSourceError>,
    result: Result<(), PlaybackWindowPreparationError<D::Error>>,
)
    requires
        before.playback_window == Some(window),
        call_ensures(MediaPlaybackWindow::start, (window,), start),
        call_ensures(
            MediaPlaybackWindow::validate_source_duration,
            (window, before.duration),
            fits,
        ),
        exists|media: &mut PreparedMedia<D>|
            *media == before && *final(media) == after && #[trigger] call_ensures(
                PreparedMedia::<D>::prepare_playback_window,
                (media,),
                result,
            ),
    ensures
        fits is Err ==> after == before && result is Err && result->Err_0
            == PlaybackWindowPreparationError::<D::Error>::OutsideSource(fits->Err_0),
        fits is Ok && start@ == 0 ==> after == before && result is Ok,
        fits is Ok && start@ != 0 && !(before.seekability is Seekable) ==> after == before && result
            is Err && result->Err_0 is SourceNotSeekable,
        fits is Ok && start@ != 0 && before.seekability is Seekable ==> {
            &&& result is Ok ==> after.prefetch_state is None
            &&& result is Err ==> after.prefetch_state == before.prefetch_state
            &&& exists|demuxer: &mut D, landed: Result<DemuxSeekResult, D::Error>|
                {
                    &&& *demuxer == before.demuxer
                    &&& *final(demuxer) == after.demuxer
                    &&& #[trigger] call_ensures(<D as Demuxer>::seek, (demuxer, start.0), landed)
                    &&& result is Ok <==> landed is Ok && landed->Ok_0.actual_position@ <= start@
                }
        },
        after.playback_window == before.playback_window,
        after.tracks == before.tracks,
{
}

/// What was read of a source waits for the player in the order in which it was read, behind what
/// was kept before; that nothing was there is not kept. The source is handed over behind what
/// waits, and as it is where nothing does.
pub proof fn law_what_was_read_waits_for_the_player<D: Demuxer>(
    before: PreparedMedia<D>,
    after: PreparedMedia<D>,
    event: DemuxReadEvent<D::TrackDetails>,
    metadata: Option<MediaMetadata>,
    slots: PreparedMediaSlots<D>,
)
    requires
        exists|media: &mut PreparedMedia<D>|
            *media == before && *final(media) == after && #[trigger] call_ensures(
                PreparedMedia::<D>::keep_prefetched_event,
                (media, &event, metadata),
                (),
            ),
        call_ensures(PreparedMedia::<D>::into_pipeline_slots, (after,), slots),
    ensures
        event is TemporarilyUnavailable ==> after == before,
        !(event is TemporarilyUnavailable) ==> {
            &&& slots.demuxer is Prefetched
            &&& after.prefetch_state is Some
            &&& slots.demuxer->Prefetched_0.replay() == after.prefetch_state->0.events@
            &&& before.prefetch_state matches Some(state)
                ==> after.prefetch_state->0.events@.drop_last() == state.events@
                && after.prefetch_state->0.initial_media_metadata == state.initial_media_metadata
            &&& before.prefetch_state is None ==> after.prefetch_state->0.events@.len() == 1
                && after.prefetch_state->0.initial_media_metadata == metadata
            &&& event is EndOfStream ==> after.prefetch_state->0.events@.last() is EndOfStream
            &&& event is Packet ==> after.prefetch_state->0.events@.last() is Packet
                && after.prefetch_state->0.events@.last()->Packet_0.pts == event->Packet_0.pts
            &&& slots.demuxer->Prefetched_0.source() == before.demuxer
        },
        event is TemporarilyUnavailable && before.prefetch_state is None ==> slots.demuxer
            == PreparedDemuxer::Direct(before.demuxer),
        slots.tracks == before.tracks,
        slots.playback_window == before.playback_window,
        slots.source_info == before.source_info,
{
}

/// A prepared source says of itself what its demuxer says, and plays as a whole until a window is
/// given.
pub proof fn law_prepared_source_plays_as_a_whole<D: Demuxer>(
    label: String,
    demuxer: D,
    media: PreparedMedia<D>,
    window: MediaPlaybackWindow,
    windowed: PreparedMedia<D>,
    before: Option<MediaPlaybackWindow>,
    after: Option<MediaPlaybackWindow>,
    info: MediaSourceInfo,
)
    requires
        call_ensures(PreparedMedia::<D>::from_external_label, (label, demuxer), media),
        call_ensures(PreparedMediaSource::source_info, (&PreparedMediaSource::ExternalLabel(label),), info),
        call_ensures(PreparedMedia::<D>::with_playback_window, (media, window), windowed),
        call_ensures(PreparedMedia::<D>::playback_window, (&media,), before),
        call_ensures(PreparedMedia::<D>::playback_window, (&windowed,), after),
    ensures
        before is None,
        after == Some(window),
        media.source == PreparedMediaSource::ExternalLabel(label),
        media.source_info.kind == info.kind,
        media.source_info.display_location@ == info.display_location@,
        media.source_info.size_bytes == info.size_bytes,
        call_ensures(<D as Demuxer>::tracks, (&demuxer,), media.tracks),
        call_ensures(<D as Demuxer>::duration, (&demuxer,), media.duration),
        call_ensures(<D as Demuxer>::seekability, (&demuxer,), media.seekability),
{
}

} // verus!
