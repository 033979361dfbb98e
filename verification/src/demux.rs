//! What a container demuxer hands to the player, and what the player asks of it.
use crate::command::SeekMode;
use crate::media::{MediaTime, PacketKeyframe, TrackId, TrackKind, VideoCodec};
use crate::pipeline::packets::{AudioPacketTiming, PacketPresentationWindow};
use crate::time::Duration;
use std::sync::Arc;
use vstd::prelude::*;

verus! {

/// The shared byte buffer of the `bytes` crate.
#[verifier::external_type_specification]
#[verifier::external_body]
pub struct ExBytes(bytes::Bytes);

/// The bytes that a shared buffer holds.
pub uninterp spec fn contents(payload: bytes::Bytes) -> Seq<u8>;

/// The number of bytes in a shared buffer, with `bytes::Bytes::len`.
#[verifier::external_body]
pub(crate) fn payload_len(payload: &bytes::Bytes) -> (r: usize)
    ensures
        r == contents(*payload).len(),
{
    payload.len()
}

/// The bytes of a shared buffer without a copy, with the `Deref` of `bytes::Bytes`.
#[verifier::external_body]
pub(crate) fn payload_bytes(payload: &bytes::Bytes) -> (r: &[u8])
    ensures
        r@ == contents(*payload),
{
    payload
}

/// A second owner of a shared buffer, with the `Clone` of `bytes::Bytes`: it holds the same bytes.
#[verifier::external_body]
pub(crate) fn payload_clone(payload: &bytes::Bytes) -> (r: bytes::Bytes)
    ensures
        contents(r) == contents(*payload),
{
    payload.clone()
}

/// The duration of one tick of a track, as a fraction of a second.
#[derive(Debug, Clone, Copy, PartialEq, Eq, Structural)]
pub struct TimeBase {
    /// Seconds above the line.
    pub numerator: u32,
    /// Seconds below the line.
    pub denominator: u32,
}

/// A timestamp in the units of its track.
#[derive(Debug, Clone, Copy, PartialEq, Eq, Structural)]
pub struct TrackTimestamp {
    /// Track whose clock counts.
    pub track_id: TrackId,
    /// Number of ticks.
    pub ticks: i64,
    /// Length of a tick.
    pub time_base: TimeBase,
}

impl TrackTimestamp {
    /// The timestamp with the given number of ticks.
    pub fn new(track_id: TrackId, ticks: i64, time_base: TimeBase) -> (r: Self)
        ensures
            r == (TrackTimestamp { track_id, ticks, time_base }),
    {
        TrackTimestamp { track_id, ticks, time_base }
    }
}

/// What the container says of a track. `T` is what only a decoder reads of it: the private data
/// of the compression format and the parameters of the video.
#[derive(Debug, PartialEq, Eq)]
pub struct TrackInfo<T> {
    /// Identity of the track.
    pub id: TrackId,
    /// Kind of the track.
    pub kind: TrackKind,
    /// Name of the compression format in the container.
    pub codec_id: String,
    /// Format of a video track, where the name stands for a known one.
    pub video_codec: Option<VideoCodec>,
    /// Length of a tick.
    pub time_base: TimeBase,
    /// Length of the track.
    pub duration: Option<Duration>,
    /// Samples per second of an audio track.
    pub sample_rate: Option<u32>,
    /// Channels of an audio track.
    pub channels: Option<u32>,
    /// What a decoder reads of the track.
    pub details: Arc<T>,
}

impl<T> Clone for TrackInfo<T> {
    fn clone(&self) -> (r: Self)
        ensures
            r == *self,
    {
        TrackInfo {
            id: self.id,
            kind: self.kind,
            codec_id: self.codec_id.clone(),
            video_codec: self.video_codec,
            time_base: self.time_base,
            duration: self.duration,
            sample_rate: self.sample_rate,
            channels: self.channels,
            details: Arc::clone(&self.details),
        }
    }
}

/// A copy of a list of tracks.
pub fn clone_tracks<T>(tracks: &Vec<TrackInfo<T>>) -> (r: Vec<TrackInfo<T>>)
    ensures
        r@ == tracks@,
{
    let mut r: Vec<TrackInfo<T>> = Vec::new();
    let mut index: usize = 0;
    while index < tracks.len()
        invariant
            index <= tracks@.len(),
            r@ == tracks@.take(index as int),
        decreases tracks@.len() - index,
    {
        r.push(tracks[index].clone());
        index = index + 1;
        assert(tracks@.take(index as int) =~= tracks@.take(index - 1).push(tracks@[index - 1]));
    }
    assert(tracks@.take(index as int) =~= tracks@);
    r
}

/// What the container says of the medium as a whole.
#[derive(Debug, PartialEq, Eq)]
pub struct MediaMetadata {
    /// Title.
    pub title: Option<String>,
    /// Artist.
    pub artist: Option<String>,
    /// Album.
    pub album: Option<String>,
}

/// A copy of a text that may be missing.
fn clone_text(text: &Option<String>) -> (r: Option<String>)
    ensures
        r == *text,
{
    match text {
        Some(text) => Some(text.clone()),
        None => None,
    }
}

impl Clone for MediaMetadata {
    fn clone(&self) -> (r: Self)
        ensures
            r == *self,
    {
        MediaMetadata {
            title: clone_text(&self.title),
            artist: clone_text(&self.artist),
            album: clone_text(&self.album),
        }
    }
}

/// A packet that was read.
#[derive(Debug, PartialEq, Eq)]
pub struct DemuxPacket {
    /// Track of the packet.
    pub track_id: TrackId,
    /// Presentation timestamp.
    pub pts: Duration,
    /// Decode timestamp.
    pub dts: Option<Duration>,
    /// Timing in the units of the container.
    pub timing: AudioPacketTiming,
    /// Part of the packet that is meant to be presented.
    pub presentation_window: PacketPresentationWindow,
    /// Whether the packet starts a decodable run.
    pub keyframe: PacketKeyframe,
    /// Encoded bytes.
    pub encoded_bytes: bytes::Bytes,
}

impl DemuxPacket {
    /// Whether two packets say the same with the same bytes.
    pub open spec fn same(self, other: Self) -> bool {
        &&& self.track_id == other.track_id
        &&& self.pts == other.pts
        &&& self.dts == other.dts
        &&& self.timing == other.timing
        &&& self.presentation_window == other.presentation_window
        &&& self.keyframe == other.keyframe
        &&& contents(self.encoded_bytes) == contents(other.encoded_bytes)
    }
}

impl Clone for DemuxPacket {
    fn clone(&self) -> (r: Self)
        ensures
            r.same(*self),
    {
        DemuxPacket {
            track_id: self.track_id,
            pts: self.pts,
            dts: self.dts,
            timing: self.timing,
            presentation_window: self.presentation_window,
            keyframe: self.keyframe,
            encoded_bytes: payload_clone(&self.encoded_bytes),
        }
    }
}

/// A new list of tracks.
#[derive(Debug, PartialEq, Eq)]
pub struct DemuxTrackListUpdate<T> {
    /// Tracks from now on.
    pub tracks: Vec<TrackInfo<T>>,
    /// Length of the medium from now on.
    pub duration: Option<Duration>,
}

/// When a source that has nothing at the moment is worth another attempt.
#[derive(Debug, Clone, Copy, PartialEq, Eq, Structural)]
pub struct DemuxRetryHint {
    /// Time to wait.
    pub delay: Duration,
}

/// What a demuxer hands over next.
#[derive(Debug, PartialEq, Eq)]
pub enum DemuxReadEvent<T> {
    /// A packet.
    Packet(DemuxPacket),
    /// The tracks have changed.
    TracksChanged(DemuxTrackListUpdate<T>),
    /// The metadata has changed.
    MediaMetadataChanged(MediaMetadata),
    /// Nothing more comes.
    EndOfStream,
    /// Nothing is there at the moment.
    TemporarilyUnavailable(DemuxRetryHint),
}

impl<T> DemuxReadEvent<T> {
    /// Whether two events say the same.
    pub open spec fn same(self, other: Self) -> bool {
        match (self, other) {
            (DemuxReadEvent::Packet(a), DemuxReadEvent::Packet(b)) => a.same(b),
            (DemuxReadEvent::TracksChanged(a), DemuxReadEvent::TracksChanged(b)) => {
                a.tracks@ == b.tracks@ && a.duration == b.duration
            },
            (a, b) => a == b,
        }
    }
}

impl<T> Clone for DemuxReadEvent<T> {
    fn clone(&self) -> (r: Self)
        ensures
            r.same(*self),
    {
        match self {
            DemuxReadEvent::Packet(packet) => DemuxReadEvent::Packet(packet.clone()),
            DemuxReadEvent::TracksChanged(update) => DemuxReadEvent::TracksChanged(
                DemuxTrackListUpdate {
                    tracks: clone_tracks(&update.tracks),
                    duration: update.duration,
                },
            ),
            DemuxReadEvent::MediaMetadataChanged(metadata) => {
                DemuxReadEvent::MediaMetadataChanged(metadata.clone())
            },
            DemuxReadEvent::EndOfStream => DemuxReadEvent::EndOfStream,
            DemuxReadEvent::TemporarilyUnavailable(hint) => {
                DemuxReadEvent::TemporarilyUnavailable(*hint)
            },
        }
    }
}

/// Whether a source can be positioned.
#[derive(Debug, Clone, Copy, PartialEq, Eq, Structural)]
pub enum DemuxSeekability {
    /// At any position.
    Seekable,
    /// Not at all.
    NotSeekable,
    /// The source does not say.
    Unknown,
}

/// A wish to read on elsewhere.
#[derive(Debug, Clone, Copy, PartialEq, Eq, Structural)]
pub struct DemuxSeekRequest {
    /// Wanted position.
    pub position: Duration,
    /// How exactly it is to be met.
    pub mode: SeekMode,
}

impl DemuxSeekRequest {
    /// The wish to meet a position exactly.
    pub fn accurate(position: Duration) -> (r: Self)
        ensures
            r == (DemuxSeekRequest { position, mode: SeekMode::Accurate }),
    {
        DemuxSeekRequest { position, mode: SeekMode::Accurate }
    }
}

/// Where a demuxer landed.
#[derive(Debug, Clone, Copy, PartialEq, Eq, Structural)]
pub struct DemuxSeekResult {
    /// Wanted position.
    pub requested_position: MediaTime,
    /// Position from which packets are read.
    pub actual_position: MediaTime,
    /// That position in the units of its track.
    pub actual_track_timestamp: Option<TrackTimestamp>,
}

/// A container demuxer. What it hands over depends on the source, so nothing is promised of it.
pub trait Demuxer {
    /// Why reading or seeking failed.
    type Error;

    /// What a decoder reads of a track.
    type TrackDetails;

    /// The tracks of the medium.
    fn tracks(&self) -> Vec<TrackInfo<Self::TrackDetails>>;

    /// The length of the medium.
    fn duration(&self) -> Option<Duration>;

    /// The metadata of the medium.
    fn media_metadata(&self) -> Option<MediaMetadata>;

    /// Whether the source can be positioned.
    fn seekability(&self) -> DemuxSeekability;

    /// Reads on.
    fn next_event(&mut self) -> Result<DemuxReadEvent<Self::TrackDetails>, Self::Error>;

    /// Positions the source exactly.
    fn seek(&mut self, timestamp: Duration) -> Result<DemuxSeekResult, Self::Error>;

    /// Positions the source as it is asked to.
    fn seek_with_request(&mut self, request: DemuxSeekRequest) -> Result<
        DemuxSeekResult,
        Self::Error,
    >;
}

/// A copy of a packet says the same of itself, with the same bytes.
pub proof fn law_copy_of_a_packet_is_the_same(
    packet: DemuxPacket,
    copied: DemuxPacket,
)
    requires
        call_ensures(<DemuxPacket as Clone>::clone, (&packet,), copied),
    ensures
        copied.track_id == packet.track_id,
        copied.pts == packet.pts,
        copied.dts == packet.dts,
        copied.timing == packet.timing,
        copied.presentation_window == packet.presentation_window,
        copied.keyframe == packet.keyframe,
        contents(copied.encoded_bytes) == contents(packet.encoded_bytes),
{
}

/// A copy of an event is the same event.
pub proof fn law_copy_of_an_event_is_the_same<T>(
    event: DemuxReadEvent<T>,
    copied: DemuxReadEvent<T>,
)
    requires
        call_ensures(<DemuxReadEvent<T> as Clone>::clone, (&event,), copied),
    ensures
        event is EndOfStream || event is TemporarilyUnavailable || event is MediaMetadataChanged
            ==> copied == event,
        event is TracksChanged <==> copied is TracksChanged,
        event is TracksChanged ==> copied->TracksChanged_0.tracks@ == event->TracksChanged_0.tracks@
            && copied->TracksChanged_0.duration == event->TracksChanged_0.duration,
        event is Packet <==> copied is Packet,
        event is Packet ==> copied->Packet_0.track_id == event->Packet_0.track_id
            && copied->Packet_0.pts == event->Packet_0.pts && copied->Packet_0.dts
            == event->Packet_0.dts && copied->Packet_0.keyframe == event->Packet_0.keyframe
            && copied->Packet_0.timing == event->Packet_0.timing
            && copied->Packet_0.presentation_window == event->Packet_0.presentation_window
            && contents(copied->Packet_0.encoded_bytes) == contents(event->Packet_0.encoded_bytes),
{
}

} // verus!
