//! Encoded packets that wait for a decoder.
use crate::demux::{contents, payload_bytes, TrackTimestamp};
use crate::media::{PacketKeyframe, TrackId};
use crate::time::Duration;
use vstd::prelude::*;

verus! {

/// The samples of a packet that are meant to be heard.
#[derive(Debug, Clone, Copy, PartialEq, Eq, Structural)]
pub struct ExactPresentationWindow {
    /// First tick to present.
    pub start: TrackTimestamp,
    /// First tick that is not presented any more.
    pub end: TrackTimestamp,
}

/// The part of a packet that is meant to be presented.
#[derive(Debug, Clone, Copy, PartialEq, Eq, Structural)]
pub enum PacketPresentationWindow {
    /// The whole packet.
    Unbounded,
    /// The part inside the window.
    Bounded(ExactPresentationWindow),
}

/// Timing of an audio packet in the units of its container.
#[derive(Debug, Clone, Copy, PartialEq, Eq, Structural)]
pub struct AudioPacketTiming {
    /// Presentation timestamp.
    pub pts: Option<TrackTimestamp>,
    /// Decode timestamp.
    pub dts: Option<TrackTimestamp>,
    /// Length in ticks.
    pub duration_ticks: Option<u64>,
}

impl AudioPacketTiming {
    /// The timing of a packet of which the container says nothing.
    pub fn unknown() -> (r: Self)
        ensures
            r == (AudioPacketTiming { pts: None, dts: None, duration_ticks: None }),
    {
        AudioPacketTiming { pts: None, dts: None, duration_ticks: None }
    }
}

/// An audio packet as a decoder takes it.
#[derive(Debug, Clone, Copy, PartialEq, Eq)]
pub struct EncodedAudioPacket<'a> {
    /// Number of the track.
    pub track_id: u32,
    /// Timing in the units of the container.
    pub timing: AudioPacketTiming,
    /// Encoded bytes.
    pub encoded_bytes: &'a [u8],
}

impl<'a> EncodedAudioPacket<'a> {
    /// A packet with the timing that the container knows.
    pub fn new(track_id: u32, timing: AudioPacketTiming, encoded_bytes: &'a [u8]) -> (r: Self)
        ensures
            r == (EncodedAudioPacket { track_id, timing, encoded_bytes }),
    {
        EncodedAudioPacket { track_id, timing, encoded_bytes }
    }

    /// A packet of which the container says nothing.
    pub fn without_timing(track_id: u32, encoded_bytes: &'a [u8]) -> (r: Self)
        ensures
            r == (EncodedAudioPacket {
                track_id,
                timing: AudioPacketTiming { pts: None, dts: None, duration_ticks: None },
                encoded_bytes,
            }),
    {
        EncodedAudioPacket { track_id, timing: AudioPacketTiming::unknown(), encoded_bytes }
    }
}

/// An audio packet that waits because the audio buffer is full.
#[derive(Debug)]
pub struct PendingAudioPacket {
    /// Track of the packet.
    pub track_id: TrackId,
    /// Presentation timestamp on the media timeline.
    pub pts: Duration,
    /// Timing in the units of the container.
    pub timing: AudioPacketTiming,
    /// Part of the packet that is meant to be heard.
    pub presentation_window: PacketPresentationWindow,
    /// Seek generation in which the packet was read.
    pub generation: u64,
    /// Encoded bytes.
    pub encoded_bytes: bytes::Bytes,
}

impl PendingAudioPacket {
    /// A packet with everything that the container knows of it.
    pub fn with_timing(
        track_id: TrackId,
        pts: Duration,
        timing: AudioPacketTiming,
        presentation_window: PacketPresentationWindow,
        generation: u64,
        encoded_bytes: bytes::Bytes,
    ) -> (r: Self)
        ensures
            r == (PendingAudioPacket {
                track_id,
                pts,
                timing,
                presentation_window,
                generation,
                encoded_bytes,
            }),
    {
        PendingAudioPacket {
            track_id,
            pts,
            timing,
            presentation_window,
            generation,
            encoded_bytes,
        }
    }

    /// A packet with unknown timing of which a part is meant to be heard.
    pub fn new_with_presentation_window(
        track_id: TrackId,
        pts: Duration,
        presentation_window: PacketPresentationWindow,
        generation: u64,
        encoded_bytes: bytes::Bytes,
    ) -> (r: Self)
        ensures
            r == (PendingAudioPacket {
                track_id,
                pts,
                timing: AudioPacketTiming { pts: None, dts: None, duration_ticks: None },
                presentation_window,
                generation,
                encoded_bytes,
            }),
    {
        PendingAudioPacket {
            track_id,
            pts,
            timing: AudioPacketTiming::unknown(),
            presentation_window,
            generation,
            encoded_bytes,
        }
    }

    /// A packet with unknown timing that is heard as a whole.
    pub fn new_unbounded(
        track_id: TrackId,
        pts: Duration,
        _dts: Option<Duration>,
        _duration: Option<Duration>,
        generation: u64,
        encoded_bytes: bytes::Bytes,
    ) -> (r: Self)
        ensures
            r == (PendingAudioPacket {
                track_id,
                pts,
                timing: AudioPacketTiming { pts: None, dts: None, duration_ticks: None },
                presentation_window: PacketPresentationWindow::Unbounded,
                generation,
                encoded_bytes,
            }),
    {
        Self::new_with_presentation_window(
            track_id,
            pts,
            PacketPresentationWindow::Unbounded,
            generation,
            encoded_bytes,
        )
    }

    /// The track of the packet.
    pub fn track_id(&self) -> (r: TrackId)
        ensures
            r == self.track_id,
    {
        self.track_id
    }

    /// The presentation timestamp on the media timeline.
    pub fn pts(&self) -> (r: Duration)
        ensures
            r == self.pts,
    {
        self.pts
    }

    /// The timing in the units of the container.
    pub fn timing(&self) -> (r: AudioPacketTiming)
        ensures
            r == self.timing,
    {
        self.timing
    }

    /// The part of the packet that is meant to be heard.
    pub fn presentation_window(&self) -> (r: PacketPresentationWindow)
        ensures
            r == self.presentation_window,
    {
        self.presentation_window
    }

    /// The seek generation in which the packet was read.
    pub fn generation(&self) -> (r: u64)
        ensures
            r == self.generation,
    {
        self.generation
    }

    /// The encoded bytes.
    pub fn encoded_bytes(&self) -> (r: &[u8])
        ensures
            r@ == contents(self.encoded_bytes),
    {
        payload_bytes(&self.encoded_bytes)
    }
}

/// A video packet that waits for the decoder.
#[derive(Debug)]
pub struct PendingVideoPacket {
    /// Track of the packet.
    pub track_id: TrackId,
    /// Presentation timestamp on the media timeline.
    pub pts: Duration,
    /// Decode timestamp on the media timeline.
    pub dts: Option<Duration>,
    /// Decode timestamp in the units of the track.
    pub track_dts: Option<TrackTimestamp>,
    /// Seek generation in which the packet was read.
    pub generation: u64,
    /// Encoded bytes.
    pub encoded_bytes: bytes::Bytes,
    /// Whether the packet starts a decodable run.
    pub keyframe: PacketKeyframe,
}

impl PendingVideoPacket {
    /// A packet with everything that the container knows of it.
    pub fn new_with_decode_timestamps(
        track_id: TrackId,
        pts: Duration,
        dts: Option<Duration>,
        track_dts: Option<TrackTimestamp>,
        generation: u64,
        encoded_bytes: bytes::Bytes,
        keyframe: PacketKeyframe,
    ) -> (r: Self)
        ensures
            r == (PendingVideoPacket {
                track_id,
                pts,
                dts,
                track_dts,
                generation,
                encoded_bytes,
                keyframe,
            }),
    {
        PendingVideoPacket { track_id, pts, dts, track_dts, generation, encoded_bytes, keyframe }
    }

    /// A packet without decode timestamps.
    pub fn new(
        track_id: TrackId,
        pts: Duration,
        generation: u64,
        encoded_bytes: bytes::Bytes,
        keyframe: PacketKeyframe,
    ) -> (r: Self)
        ensures
            r == (PendingVideoPacket {
                track_id,
                pts,
                dts: None,
                track_dts: None,
                generation,
                encoded_bytes,
                keyframe,
            }),
    {
        Self::new_with_decode_timestamps(
            track_id,
            pts,
            None,
            None,
            generation,
            encoded_bytes,
            keyframe,
        )
    }

    /// The encoded bytes.
    pub fn encoded_bytes(&self) -> (r: &[u8])
        ensures
            r@ == contents(self.encoded_bytes),
    {
        payload_bytes(&self.encoded_bytes)
    }
}

} // verus!
