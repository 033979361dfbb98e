//! Neutral words for media that the rest of the library speaks of.
use crate::time::Duration;
use vstd::prelude::*;

verus! {

/// Identity of one track inside an opened source.
#[derive(Debug, Clone, Copy, PartialEq, Eq, Structural, Hash)]
pub struct TrackId(pub u32);

impl TrackId {
    /// The identity with the given number.
    pub fn new(raw: u32) -> (r: Self)
        ensures
            r == TrackId(raw),
    {
        TrackId(raw)
    }
}

/// Whether a packet starts a decodable run.
#[derive(Debug, Clone, Copy, PartialEq, Eq, Structural)]
pub enum PacketKeyframe {
    /// The container marks the packet as a keyframe.
    Keyframe,
    /// The container marks the packet as dependent on earlier ones.
    NotKeyframe,
    /// The container does not say.
    Unknown,
}

/// Way of a decoded frame to the renderer.
#[derive(Debug, Clone, Copy, PartialEq, Eq, Structural)]
pub enum FrameMemoryPath {
    /// The decoder's surface is imported without a copy.
    DmaBufZeroCopy,
    /// The frame is uploaded from host memory.
    HostUpload,
}

/// Kind of a track.
#[derive(Debug, Clone, Copy, PartialEq, Eq, Structural)]
pub enum TrackKind {
    /// A video track.
    Video,
    /// An audio track.
    Audio,
}

/// Compression format of a video track.
#[derive(Debug, Clone, Copy, PartialEq, Eq, Structural)]
pub enum VideoCodec {
    /// AV1.
    Av1,
    /// VP9.
    Vp9,
    /// VP8.
    Vp8,
    /// H.264.
    H264,
    /// H.265.
    H265,
}

/// Arrangement of the samples in a decoded frame.
#[derive(Debug, Clone, Copy, PartialEq, Eq, Structural)]
pub enum VideoFramePixelLayout {
    /// Eight bits, two planes.
    Nv12,
    /// Ten bits, two planes.
    P010,
}

/// Arrangement of the planes in a DMA buffer.
#[derive(Debug, Clone, Copy, PartialEq, Eq, Structural)]
pub enum DmaBufImageLayout {
    /// One image per plane.
    SeparateLayers,
    /// One image for all planes.
    ComposedLayers,
}

/// What a decoder has to publish for the selected track.
#[derive(Debug, Clone, Copy, PartialEq, Eq, Structural)]
pub struct VideoFrameContract {
    /// Arrangement of the samples.
    pub pixel_layout: VideoFramePixelLayout,
    /// Arrangement of the planes.
    pub image_layout: DmaBufImageLayout,
}

/// Coded size of a video.
#[derive(Debug, Clone, Copy, PartialEq, Eq, Structural)]
pub struct VideoResolution {
    /// Width in samples.
    pub width: u32,
    /// Height in samples.
    pub height: u32,
}

/// What the selected video track asks of a decoder.
#[derive(Debug, Clone, Copy, PartialEq, Eq, Structural)]
pub struct VideoDecodeRequirement {
    /// Compression format.
    pub codec: VideoCodec,
    /// Coded size, where it is known.
    pub resolution: Option<VideoResolution>,
    /// Arrangement of the samples, where it is known.
    pub pixel_layout: Option<VideoFramePixelLayout>,
}

impl VideoDecodeRequirement {
    /// A requirement of which only the format is known.
    pub fn new(codec: VideoCodec) -> (r: Self)
        ensures
            r == (VideoDecodeRequirement { codec, resolution: None, pixel_layout: None }),
    {
        VideoDecodeRequirement { codec, resolution: None, pixel_layout: None }
    }

    /// The requirement with a known coded size.
    pub fn with_resolution(self, width: u32, height: u32) -> (r: Self)
        ensures
            r == (VideoDecodeRequirement { resolution: Some(VideoResolution { width, height }), ..self }),
    {
        VideoDecodeRequirement { resolution: Some(VideoResolution { width, height }), ..self }
    }
}

/// Latencies that a decoder backend measured for one frame.
#[derive(Debug, Clone, Copy, PartialEq, Eq, Structural)]
pub struct VideoFrameTimingDiagnostics {
    /// Wait in the packet channel.
    pub decoder_packet_receive_latency: Option<Duration>,
    /// Submission of the packet.
    pub decoder_submit_latency: Option<Duration>,
    /// Draining of decoder events.
    pub decoder_event_drain_latency: Option<Duration>,
    /// Wait for the hardware surface.
    pub hardware_sync_latency: Option<Duration>,
    /// Export of the surface.
    pub dma_buf_export_latency: Option<Duration>,
    /// Import of the surface.
    pub dma_buf_import_latency: Option<Duration>,
    /// Publication of the frame.
    pub decoded_frame_publish_latency: Option<Duration>,
}

impl Default for VideoFrameTimingDiagnostics {
    fn default() -> (r: Self)
        ensures
            r.decoder_packet_receive_latency is None,
            r.decoder_submit_latency is None,
            r.decoder_event_drain_latency is None,
            r.hardware_sync_latency is None,
            r.dma_buf_export_latency is None,
            r.dma_buf_import_latency is None,
            r.decoded_frame_publish_latency is None,
    {
        VideoFrameTimingDiagnostics {
            decoder_packet_receive_latency: None,
            decoder_submit_latency: None,
            decoder_event_drain_latency: None,
            hardware_sync_latency: None,
            dma_buf_export_latency: None,
            dma_buf_import_latency: None,
            decoded_frame_publish_latency: None,
        }
    }
}

/// Identity of a decoded frame's texture.
#[derive(Debug, Clone, Copy, PartialEq, Eq, Structural, Hash)]
pub struct FrameResourceHandle(pub u64);

/// A decoded frame as the player sees it. `M` is what only the renderer reads of it: the form of
/// its pixels, its orientation and its colours.
#[derive(Debug, Clone, Copy, PartialEq, Eq)]
pub struct DecodedFrame<M> {
    /// Seek generation in which the packet was read.
    pub generation: u64,
    /// Presentation timestamp.
    pub pts: Duration,
    /// Way to the renderer.
    pub memory_path: FrameMemoryPath,
    /// Coded width.
    pub width: u32,
    /// Coded height.
    pub height: u32,
    /// Width to render.
    pub render_width: u32,
    /// Height to render.
    pub render_height: u32,
    /// Identity of the texture.
    pub resource_handle: FrameResourceHandle,
    /// Latencies that the backend measured.
    pub timings: VideoFrameTimingDiagnostics,
    /// Depth of the backend's ready queue.
    pub decoder_ready_queue_depth: Option<usize>,
    /// What the renderer reads of the frame.
    pub metadata: M,
}

/// A position on a media timeline.
#[derive(Debug, Clone, Copy, PartialEq, Eq, Structural, Hash)]
pub struct MediaTime(pub Duration);

/// A length on a media timeline.
#[derive(Debug, Clone, Copy, PartialEq, Eq, Structural, Hash)]
pub struct MediaDuration(pub Duration);

/// A range of positions on a media timeline.
#[derive(Debug, Clone, Copy, PartialEq, Eq, Structural)]
pub struct TimelineRange {
    /// First position.
    pub start: MediaTime,
    /// Last position.
    pub end: MediaTime,
}

impl View for MediaTime {
    type V = int;

    /// Nanoseconds from the start of the timeline.
    open spec fn view(&self) -> int {
        self.0@
    }
}

impl View for MediaDuration {
    type V = int;

    /// The number of nanoseconds.
    open spec fn view(&self) -> int {
        self.0@
    }
}

impl MediaTime {
    /// The start of the timeline.
    pub fn zero() -> (r: Self)
        ensures
            r@ == 0,
    {
        MediaTime(Duration::zero())
    }

    /// The position `secs` seconds after the start.
    pub fn from_secs(secs: u64) -> (r: Self)
        ensures
            r@ == secs * 1_000_000_000,
    {
        MediaTime(Duration::from_secs(secs))
    }

    /// The position `duration` after the start.
    pub fn from_duration(duration: Duration) -> (r: Self)
        ensures
            r.0 == duration,
    {
        MediaTime(duration)
    }

    /// The distance from the start.
    pub fn as_duration(self) -> (r: Duration)
        ensures
            r == self.0,
    {
        self.0
    }
}

impl MediaDuration {
    /// A length of `secs` seconds.
    pub fn from_secs(secs: u64) -> (r: Self)
        ensures
            r@ == secs * 1_000_000_000,
    {
        MediaDuration(Duration::from_secs(secs))
    }

    /// A length of `duration`.
    pub fn from_duration(duration: Duration) -> (r: Self)
        ensures
            r.0 == duration,
    {
        MediaDuration(duration)
    }

    /// The length as a span of time.
    pub fn as_duration(self) -> (r: Duration)
        ensures
            r == self.0,
    {
        self.0
    }
}

} // verus!
