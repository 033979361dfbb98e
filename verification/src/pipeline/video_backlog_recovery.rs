//! The queue of video packets before the decoder, and the search for a keyframe behind it.
//!
//! A player that runs faster than its decoder may skip ahead, but only to a keyframe that the
//! container has proven, and only where the decoder can go on there without a flush. While the
//! keyframe is searched for, the packets that are read go to a bounded staging area. Nothing is
//! given up before the keyframe is found: without one the staged packets go back behind the
//! queue, in the order in which they were read.
use super::packets::PendingVideoPacket;
use crate::demux::{contents, payload_len};
use crate::media::{PacketKeyframe, TrackId, VideoCodec};
use crate::playback_rate::{PlaybackRate, NORMAL_RATE_BITS};
use crate::time::Duration;
use std::collections::VecDeque;
use vstd::prelude::*;

verus! {

/// Bounds of one search.
#[derive(Debug, Clone, Copy, PartialEq, Eq, Structural)]
pub struct VideoBacklogRecoveryScanLimits {
    /// Number of staged packets at which the search ends.
    pub max_staged_packets: usize,
    /// Number of staged bytes at which the search ends.
    pub max_staged_bytes: usize,
    /// Length of the queue at which a search is allowed again after one that ended.
    pub rearm_pending_packets: usize,
}

impl VideoBacklogRecoveryScanLimits {
    /// Limits under which a search stages at least one packet and does not start again before
    /// the queue has become shorter than what it staged.
    pub open spec fn wf(self) -> bool {
        &&& self.max_staged_packets >= 1
        &&& self.max_staged_bytes >= 1
        &&& self.rearm_pending_packets < self.max_staged_packets
    }

    /// The nearest limits that make sense.
    pub open spec fn spec_sanitized(self) -> Self {
        let packets: usize = if self.max_staged_packets == 0 {
            1
        } else {
            self.max_staged_packets
        };
        VideoBacklogRecoveryScanLimits {
            max_staged_packets: packets,
            max_staged_bytes: if self.max_staged_bytes == 0 {
                1
            } else {
                self.max_staged_bytes
            },
            rearm_pending_packets: if self.rearm_pending_packets < packets {
                self.rearm_pending_packets
            } else {
                (packets - 1) as usize
            },
        }
    }

    /// A small budget.
    pub fn for_tests() -> (r: Self)
        ensures
            r == (VideoBacklogRecoveryScanLimits {
                max_staged_packets: 8,
                max_staged_bytes: 1_048_576,
                rearm_pending_packets: 2,
            }),
    {
        VideoBacklogRecoveryScanLimits {
            max_staged_packets: 8,
            max_staged_bytes: 1_048_576,
            rearm_pending_packets: 2,
        }
    }

    /// The nearest limits that make sense: limits that make sense already stay as they are.
    pub fn sanitized(self) -> (r: Self)
        ensures
            r == self.spec_sanitized(),
            r.wf(),
            self.wf() ==> r == self,
    {
        let max_staged_packets: usize = if self.max_staged_packets == 0 {
            1
        } else {
            self.max_staged_packets
        };
        let max_staged_bytes: usize = if self.max_staged_bytes == 0 {
            1
        } else {
            self.max_staged_bytes
        };
        let rearm_pending_packets: usize = if self.rearm_pending_packets < max_staged_packets {
            self.rearm_pending_packets
        } else {
            max_staged_packets - 1
        };
        VideoBacklogRecoveryScanLimits {
            max_staged_packets,
            max_staged_bytes,
            rearm_pending_packets,
        }
    }
}

/// The bound that ended a search.
#[derive(Debug, Clone, Copy, PartialEq, Eq, Structural)]
pub enum VideoBacklogRecoveryScanLimit {
    /// The number of staged packets.
    PacketCount,
    /// The number of staged bytes.
    ByteCount,
}

/// What became of the wish to start a search.
#[derive(Debug, Clone, Copy, PartialEq, Eq, Structural)]
pub enum VideoBacklogRecoveryScanStart {
    /// The search has started; the queue stays as it is.
    Started,
    /// A search is running already.
    AlreadyScanning,
    /// The last search ended at a bound and the queue has not become short enough since.
    BackoffUntilBacklogDrains,
    /// No video track is selected.
    NoSelectedVideo,
    /// The selected track's requirement is not known.
    NoActiveVideoRequirement,
    /// The format does not allow the decoder to go on at a keyframe without a flush.
    CodecWithoutNoFlushRecoveryProof {
        /// Format of the selected track.
        codec: VideoCodec,
    },
    /// The container has not proven a keyframe of the selected track yet.
    NoProvenKeyframeObserved,
    /// The decoder waits for a keyframe anyway.
    DecoderAwaitingKeyframe,
}

/// What became of a packet that was read.
#[derive(Debug, Clone, Copy, PartialEq, Eq, Structural)]
pub enum VideoBacklogRecoveryRouteOutcome {
    /// No search is running; the packet is in the queue.
    QueuedNormally,
    /// The packet is staged.
    StagedWhileScanning,
    /// The packet filled the staging area, whose contents went back behind the queue.
    ScanLimitReached {
        /// Bound that ended the search.
        limit: VideoBacklogRecoveryScanLimit,
        /// Number of packets that went back.
        restored_staged_packets: usize,
        /// Number of bytes that went back.
        restored_staged_bytes: usize,
        /// Length of the queue after that.
        pending_packets_after_restore: usize,
    },
    /// The packet is the keyframe; it is the only packet in the queue now.
    SwitchedAtKeyframe {
        /// Number of packets of the queue that were given up.
        discarded_pending_packets: usize,
        /// Number of staged packets that were given up.
        discarded_staged_packets: usize,
        /// Timestamp of the keyframe.
        recovery_keyframe_pts: Duration,
    },
}

/// What the end of the stream did to a search.
#[derive(Debug, Clone, Copy, PartialEq, Eq, Structural)]
pub struct VideoBacklogRecoveryEofReport {
    /// Number of staged packets that went back behind the queue.
    pub restored_staged_packets: usize,
}

/// What a change of the playback rate did to a search.
#[derive(Debug, Clone, Copy, PartialEq, Eq, Structural)]
pub struct VideoBacklogRecoveryRateChangeReport {
    /// Number of staged packets that went back behind the queue.
    pub restored_staged_packets: usize,
}

impl Default for VideoBacklogRecoveryEofReport {
    fn default() -> (r: Self)
        ensures
            r.restored_staged_packets == 0,
    {
        VideoBacklogRecoveryEofReport { restored_staged_packets: 0 }
    }
}

impl Default for VideoBacklogRecoveryRateChangeReport {
    fn default() -> (r: Self)
        ensures
            r.restored_staged_packets == 0,
    {
        VideoBacklogRecoveryRateChangeReport { restored_staged_packets: 0 }
    }
}

/// State of the search.
#[derive(Debug, Clone, Copy, PartialEq, Eq, Structural)]
pub enum VideoBacklogRecoveryState {
    /// Packets go to the queue.
    Inactive,
    /// Packets are staged until a keyframe comes.
    ScanningForKeyframe {
        /// Seek generation in which the search started.
        generation: u64,
        /// Track whose keyframe ends the search.
        selected_track_id: TrackId,
        /// Bounds of the search.
        limits: VideoBacklogRecoveryScanLimits,
    },
    /// The search ended at a bound; packets go to the queue.
    BackoffUntilBacklogDrains {
        /// Length of the queue at which a search is allowed again.
        rearm_pending_packets: usize,
    },
}

impl Default for VideoBacklogRecoveryState {
    fn default() -> (r: Self)
        ensures
            r is Inactive,
    {
        VideoBacklogRecoveryState::Inactive
    }
}

/// The facts about the selected track that decide whether a search may start.
#[derive(Debug, Clone, Copy, PartialEq, Eq, Structural)]
pub struct VideoBacklogRecoveryContext {
    /// Selected track.
    pub selected_track_id: Option<TrackId>,
    /// Format of the selected track, once its requirement is known.
    pub codec: Option<VideoCodec>,
    /// Whether the decoder waits for a keyframe.
    pub decoder_needs_keyframe: bool,
    /// Current seek generation.
    pub seek_generation: u64,
}

/// The number of bytes in a run of packets.
pub open spec fn total_bytes(packets: Seq<PendingVideoPacket>) -> nat
    decreases packets.len(),
{
    if packets.len() == 0 {
        0
    } else {
        total_bytes(packets.drop_last()) + contents(packets.last().encoded_bytes).len()
    }
}

/// Whether a decoder of this format can go on at a keyframe without a flush.
pub open spec fn recovers_without_flush(codec: VideoCodec) -> bool {
    codec == VideoCodec::Av1 || codec == VideoCodec::Vp9
}

/// The bound that a staging area has reached, the number of packets before that of bytes.
pub open spec fn reached_limit(
    staged: Seq<PendingVideoPacket>,
    limits: VideoBacklogRecoveryScanLimits,
) -> Option<VideoBacklogRecoveryScanLimit> {
    if staged.len() >= limits.max_staged_packets {
        Some(VideoBacklogRecoveryScanLimit::PacketCount)
    } else if total_bytes(staged) >= limits.max_staged_bytes {
        Some(VideoBacklogRecoveryScanLimit::ByteCount)
    } else {
        None
    }
}

/// The smaller of a number and the largest `usize`.
pub open spec fn capped(count: nat) -> usize {
    if count > usize::MAX {
        usize::MAX
    } else {
        count as usize
    }
}

/// The contents of a [`VideoPacketQueue`].
pub struct VideoPacketQueueView {
    /// Packets that the decoder takes next.
    pub pending: Seq<PendingVideoPacket>,
    /// Packets that were read during a search.
    pub staged: Seq<PendingVideoPacket>,
    /// State of the search.
    pub state: VideoBacklogRecoveryState,
    /// Track of which the container has proven a keyframe.
    pub proven_keyframe_track: Option<TrackId>,
    /// Whether packets are dropped until the next keyframe.
    pub admission_waits_for_keyframe: bool,
}

impl VideoPacketQueueView {
    /// Packets are staged only during a search, and always within its bounds.
    pub open spec fn wf(self) -> bool {
        match self.state {
            VideoBacklogRecoveryState::ScanningForKeyframe { limits, .. } => {
                &&& limits.wf()
                &&& reached_limit(self.staged, limits) is None
            },
            _ => self.staged.len() == 0,
        }
    }

    /// Every packet in the order in which the decoder would take them, were the search given
    /// up.
    pub open spec fn in_order(self) -> Seq<PendingVideoPacket> {
        self.pending + self.staged
    }

    /// Whether the packet is the keyframe that a running search looks for.
    pub open spec fn is_recovery_keyframe(self, packet: PendingVideoPacket) -> bool {
        match self.state {
            VideoBacklogRecoveryState::ScanningForKeyframe { generation, selected_track_id, .. } => {
                &&& packet.generation == generation
                &&& packet.track_id == selected_track_id
                &&& packet.keyframe == PacketKeyframe::Keyframe
            },
            _ => false,
        }
    }

    /// The track of which a keyframe is proven, once the packet is queued.
    pub open spec fn proven_with(
        self,
        packet: PendingVideoPacket,
        selected: Option<TrackId>,
    ) -> Option<TrackId> {
        if selected == Some(packet.track_id) && packet.keyframe == PacketKeyframe::Keyframe {
            Some(packet.track_id)
        } else {
            self.proven_keyframe_track
        }
    }

    /// The queue with a packet at its end.
    pub open spec fn enqueued(self, packet: PendingVideoPacket, selected: Option<TrackId>) -> Self {
        VideoPacketQueueView {
            pending: self.pending.push(packet),
            proven_keyframe_track: self.proven_with(packet, selected),
            ..self
        }
    }

    /// The queue after the wait of an ended search is over, where it is.
    pub open spec fn rearmed(self) -> Self {
        match self.state {
            VideoBacklogRecoveryState::BackoffUntilBacklogDrains { rearm_pending_packets } if self.pending.len()
                <= rearm_pending_packets => VideoPacketQueueView {
                state: VideoBacklogRecoveryState::Inactive,
                ..self
            },
            _ => self,
        }
    }

    /// The queue with the staged packets back behind it.
    pub open spec fn restored(self, state: VideoBacklogRecoveryState) -> Self {
        VideoPacketQueueView {
            pending: self.in_order(),
            staged: Seq::empty(),
            state,
            ..self
        }
    }

    /// The queue without a search and without the packets that it staged.
    pub open spec fn cancelled(self) -> Self {
        VideoPacketQueueView {
            staged: Seq::empty(),
            state: VideoBacklogRecoveryState::Inactive,
            ..self
        }
    }

    /// What becomes of the wish to start a search.
    pub open spec fn scan_start(
        self,
        context: VideoBacklogRecoveryContext,
    ) -> VideoBacklogRecoveryScanStart {
        match self.state {
            VideoBacklogRecoveryState::ScanningForKeyframe { .. } => {
                VideoBacklogRecoveryScanStart::AlreadyScanning
            },
            VideoBacklogRecoveryState::BackoffUntilBacklogDrains { .. } => {
                VideoBacklogRecoveryScanStart::BackoffUntilBacklogDrains
            },
            VideoBacklogRecoveryState::Inactive => {
                if context.selected_track_id is None {
                    VideoBacklogRecoveryScanStart::NoSelectedVideo
                } else if context.codec is None {
                    VideoBacklogRecoveryScanStart::NoActiveVideoRequirement
                } else if !recovers_without_flush(context.codec->0) {
                    VideoBacklogRecoveryScanStart::CodecWithoutNoFlushRecoveryProof {
                        codec: context.codec->0,
                    }
                } else if self.proven_keyframe_track != context.selected_track_id {
                    VideoBacklogRecoveryScanStart::NoProvenKeyframeObserved
                } else if context.decoder_needs_keyframe {
                    VideoBacklogRecoveryScanStart::DecoderAwaitingKeyframe
                } else {
                    VideoBacklogRecoveryScanStart::Started
                }
            },
        }
    }

    /// The queue after the wish to start a search.
    pub open spec fn scan_begun(
        self,
        limits: VideoBacklogRecoveryScanLimits,
        context: VideoBacklogRecoveryContext,
    ) -> Self {
        if self.scan_start(context) == VideoBacklogRecoveryScanStart::Started {
            VideoPacketQueueView {
                state: VideoBacklogRecoveryState::ScanningForKeyframe {
                    generation: context.seek_generation,
                    selected_track_id: context.selected_track_id->0,
                    limits: limits.spec_sanitized(),
                },
                ..self
            }
        } else {
            self
        }
    }

    /// The queue after a packet was read.
    pub open spec fn routed(self, packet: PendingVideoPacket, selected: Option<TrackId>) -> Self {
        match self.state {
            VideoBacklogRecoveryState::ScanningForKeyframe { limits, .. } => {
                if self.is_recovery_keyframe(packet) {
                    VideoPacketQueueView {
                        pending: seq![packet],
                        proven_keyframe_track: self.proven_with(packet, selected),
                        ..self.cancelled()
                    }
                } else {
                    let staged = VideoPacketQueueView { staged: self.staged.push(packet), ..self };
                    match reached_limit(staged.staged, limits) {
                        Some(limit) => staged.restored(
                            VideoBacklogRecoveryState::BackoffUntilBacklogDrains {
                                rearm_pending_packets: limits.rearm_pending_packets,
                            },
                        ),
                        None => staged,
                    }
                }
            },
            _ => self.enqueued(packet, selected),
        }
    }

    /// What becomes of a packet that was read.
    pub open spec fn route_outcome(
        self,
        packet: PendingVideoPacket,
    ) -> VideoBacklogRecoveryRouteOutcome {
        match self.state {
            VideoBacklogRecoveryState::ScanningForKeyframe { limits, .. } => {
                if self.is_recovery_keyframe(packet) {
                    VideoBacklogRecoveryRouteOutcome::SwitchedAtKeyframe {
                        discarded_pending_packets: self.pending.len() as usize,
                        discarded_staged_packets: self.staged.len() as usize,
                        recovery_keyframe_pts: packet.pts,
                    }
                } else {
                    let staged = self.staged.push(packet);
                    match reached_limit(staged, limits) {
                        Some(limit) => VideoBacklogRecoveryRouteOutcome::ScanLimitReached {
                            limit,
                            restored_staged_packets: staged.len() as usize,
                            restored_staged_bytes: capped(total_bytes(staged)),
                            pending_packets_after_restore: (self.pending + staged).len() as usize,
                        },
                        None => VideoBacklogRecoveryRouteOutcome::StagedWhileScanning,
                    }
                }
            },
            _ => VideoBacklogRecoveryRouteOutcome::QueuedNormally,
        }
    }

    /// The queue after the playback rate has changed.
    pub open spec fn rate_changed(self, rate: PlaybackRate) -> Self {
        match self.state {
            VideoBacklogRecoveryState::ScanningForKeyframe { limits, .. } if rate@
                <= NORMAL_RATE_BITS => {
                self.restored(
                    VideoBacklogRecoveryState::BackoffUntilBacklogDrains {
                        rearm_pending_packets: limits.rearm_pending_packets,
                    },
                ).rearmed()
            },
            _ => self,
        }
    }
}

/// The queue of video packets before the decoder.
#[derive(Debug)]
pub struct VideoPacketQueue {
    pending: VecDeque<PendingVideoPacket>,
    staged: VecDeque<PendingVideoPacket>,
    staged_bytes: usize,
    state: VideoBacklogRecoveryState,
    proven_keyframe_track: Option<TrackId>,
    admission_waits_for_keyframe: bool,
}

impl View for VideoPacketQueue {
    type V = VideoPacketQueueView;

    closed spec fn view(&self) -> VideoPacketQueueView {
        VideoPacketQueueView {
            pending: self.pending@,
            staged: self.staged@,
            state: self.state,
            proven_keyframe_track: self.proven_keyframe_track,
            admission_waits_for_keyframe: self.admission_waits_for_keyframe,
        }
    }
}

/// A queue that is well formed holds well-formed contents.
pub broadcast proof fn lemma_queue_wf(queue: VideoPacketQueue)
    requires
        #[trigger] queue.wf(),
    ensures
        queue@.wf(),
{
}

impl VideoPacketQueue {
    /// The contents are well formed and the number of staged bytes is up to date.
    pub closed spec fn wf(self) -> bool {
        &&& self@.wf()
        &&& self.staged_bytes == total_bytes(self.staged@)
    }

    /// An empty queue without a search.
    pub fn new() -> (r: Self)
        ensures
            r.wf(),
            r@ == (VideoPacketQueueView {
                pending: Seq::empty(),
                staged: Seq::empty(),
                state: VideoBacklogRecoveryState::Inactive,
                proven_keyframe_track: None,
                admission_waits_for_keyframe: false,
            }),
    {
        VideoPacketQueue {
            pending: VecDeque::new(),
            staged: VecDeque::new(),
            staged_bytes: 0,
            state: VideoBacklogRecoveryState::Inactive,
            proven_keyframe_track: None,
            admission_waits_for_keyframe: false,
        }
    }

    /// Puts a packet at the end of the queue and remembers whether it proves a keyframe of the
    /// selected track.
    pub fn enqueue_pending_video_packet(
        &mut self,
        packet: PendingVideoPacket,
        selected: Option<TrackId>,
    )
        requires
            old(self).wf(),
        ensures
            final(self).wf(),
            final(self)@ == old(self)@.enqueued(packet, selected),
    {
        if let Some(track_id) = selected {
            if track_id == packet.track_id && packet.keyframe == PacketKeyframe::Keyframe {
                self.proven_keyframe_track = Some(packet.track_id);
            }
        }
        self.pending.push_back(packet);
    }

    /// Takes the first packet of the queue, and allows a new search where the queue has become
    /// short enough.
    pub fn pop_pending_video_packet_front(&mut self) -> (r: Option<PendingVideoPacket>)
        requires
            old(self).wf(),
        ensures
            final(self).wf(),
            old(self)@.pending.len() == 0 ==> r is None && final(self)@ == old(self)@.rearmed(),
            old(self)@.pending.len() > 0 ==> r == Some(old(self)@.pending[0]) && final(self)@ == (
            VideoPacketQueueView {
                pending: old(self)@.pending.drop_first(),
                ..old(self)@
            }).rearmed(),
    {
        let packet = self.pending.pop_front();
        proof {
            if old(self)@.pending.len() > 0 {
                assert(self.pending@ =~= old(self)@.pending.drop_first());
            } else {
                assert(self.pending@ =~= old(self)@.pending);
            }
        }
        self.rearm_video_backlog_recovery_after_drain();
        packet
    }

    /// The first packet of the queue.
    pub fn front_pending_video_packet(&self) -> (r: Option<&PendingVideoPacket>)
        ensures
            r is None <==> self@.pending.len() == 0,
            r matches Some(packet) ==> *packet == self@.pending[0],
    {
        if self.pending.len() == 0 {
            None
        } else {
            Some(&self.pending[0])
        }
    }

    /// The length of the queue, without what is staged.
    pub fn pending_video_packet_len(&self) -> (r: usize)
        ensures
            r == self@.pending.len(),
    {
        self.pending.len()
    }

    /// The number of staged packets.
    pub fn video_backlog_recovery_staged_packet_len(&self) -> (r: usize)
        ensures
            r == self@.staged.len(),
    {
        self.staged.len()
    }

    /// The number of staged bytes.
    pub fn video_backlog_recovery_staged_bytes(&self) -> (r: usize)
        requires
            self.wf(),
        ensures
            r == total_bytes(self@.staged),
    {
        self.staged_bytes
    }

    /// Empties the queue at a discontinuity and gives up a search. The discontinuity itself
    /// positions the source at a keyframe, so admission does not wait for one any more.
    pub fn clear_pending_video_packets(&mut self)
        requires
            old(self).wf(),
        ensures
            final(self).wf(),
            final(self)@ == (VideoPacketQueueView {
                pending: Seq::empty(),
                admission_waits_for_keyframe: false,
                ..old(self)@.cancelled()
            }),
    {
        self.pending.clear();
        self.admission_waits_for_keyframe = false;
        self.cancel_video_backlog_recovery_scan_for_discontinuity();
    }

    /// Empties the queue so that the source can be read on for the sake of the audio, and
    /// drops packets from then on until the next keyframe. Returns how many packets were given
    /// up.
    pub fn shed_pending_video_backlog_for_audio_catchup(&mut self) -> (r: usize)
        requires
            old(self).wf(),
        ensures
            final(self).wf(),
            r == old(self)@.pending.len(),
            final(self)@ == (VideoPacketQueueView {
                pending: Seq::empty(),
                admission_waits_for_keyframe: true,
                ..old(self)@
            }),
    {
        let shed_packets: usize = self.pending.len();
        self.pending.clear();
        self.admission_waits_for_keyframe = true;
        shed_packets
    }

    /// Whether a packet has to be dropped because a keyframe is waited for. A packet of which
    /// the container does not say whether it is one ends the wait too.
    pub fn video_admission_should_drop_for_keyframe_resync(
        &mut self,
        keyframe: PacketKeyframe,
    ) -> (r: bool)
        requires
            old(self).wf(),
        ensures
            final(self).wf(),
            r == (old(self)@.admission_waits_for_keyframe && keyframe
                == PacketKeyframe::NotKeyframe),
            final(self)@ == (VideoPacketQueueView { admission_waits_for_keyframe: r, ..old(self)@ }),
    {
        if !self.admission_waits_for_keyframe {
            return false;
        }
        match keyframe {
            PacketKeyframe::NotKeyframe => true,
            PacketKeyframe::Keyframe | PacketKeyframe::Unknown => {
                self.admission_waits_for_keyframe = false;
                false
            },
        }
    }

    /// Starts the search for a keyframe where nothing speaks against it. The queue stays as it
    /// is.
    pub fn begin_video_backlog_recovery_scan(
        &mut self,
        limits: VideoBacklogRecoveryScanLimits,
        context: VideoBacklogRecoveryContext,
    ) -> (r: VideoBacklogRecoveryScanStart)
        requires
            old(self).wf(),
        ensures
            final(self).wf(),
            r == old(self)@.scan_start(context),
            final(self)@ == old(self)@.scan_begun(limits, context),
    {
        match self.state {
            VideoBacklogRecoveryState::ScanningForKeyframe { .. } => {
                return VideoBacklogRecoveryScanStart::AlreadyScanning;
            },
            VideoBacklogRecoveryState::BackoffUntilBacklogDrains { .. } => {
                return VideoBacklogRecoveryScanStart::BackoffUntilBacklogDrains;
            },
            VideoBacklogRecoveryState::Inactive => {},
        }
        let selected_track_id = match context.selected_track_id {
            Some(track_id) => track_id,
            None => {
                return VideoBacklogRecoveryScanStart::NoSelectedVideo;
            },
        };
        let codec = match context.codec {
            Some(codec) => codec,
            None => {
                return VideoBacklogRecoveryScanStart::NoActiveVideoRequirement;
            },
        };
        if codec != VideoCodec::Av1 && codec != VideoCodec::Vp9 {
            return VideoBacklogRecoveryScanStart::CodecWithoutNoFlushRecoveryProof { codec };
        }
        let proven = match self.proven_keyframe_track {
            Some(track_id) => track_id == selected_track_id,
            None => false,
        };
        if !proven {
            return VideoBacklogRecoveryScanStart::NoProvenKeyframeObserved;
        }
        if context.decoder_needs_keyframe {
            return VideoBacklogRecoveryScanStart::DecoderAwaitingKeyframe;
        }
        self.state =
        VideoBacklogRecoveryState::ScanningForKeyframe {
            generation: context.seek_generation,
            selected_track_id,
            limits: limits.sanitized(),
        };
        VideoBacklogRecoveryScanStart::Started
    }

    /// Whether the source may be read on although the queue is full: a search runs, and it
    /// belongs to the current generation, the selected track and a decoder that does not wait
    /// for a keyframe.
    pub fn video_backlog_recovery_scan_allows_demux(
        &self,
        context: VideoBacklogRecoveryContext,
    ) -> (r: bool)
        ensures
            r == match self@.state {
                VideoBacklogRecoveryState::ScanningForKeyframe {
                    generation,
                    selected_track_id,
                    ..
                } => {
                    &&& generation == context.seek_generation
                    &&& context.selected_track_id == Some(selected_track_id)
                    &&& !context.decoder_needs_keyframe
                },
                _ => false,
            },
    {
        match self.state {
            VideoBacklogRecoveryState::ScanningForKeyframe {
                generation,
                selected_track_id,
                ..
            } => {
                let is_selected = match context.selected_track_id {
                    Some(track_id) => track_id == selected_track_id,
                    None => false,
                };
                generation == context.seek_generation && is_selected
                    && !context.decoder_needs_keyframe
            },
            _ => false,
        }
    }

    /// Ends a search at the end of the stream: what is staged goes back behind the queue.
    pub fn finish_video_backlog_recovery_scan_at_eof(&mut self) -> (r:
        VideoBacklogRecoveryEofReport)
        requires
            old(self).wf(),
        ensures
            final(self).wf(),
            r.restored_staged_packets == old(self)@.staged.len(),
            final(self)@ == old(self)@.restored(VideoBacklogRecoveryState::Inactive),
    {
        let restored_staged_packets: usize = self.staged.len();
        self.pending.append(&mut self.staged);
        self.staged_bytes = 0;
        self.state = VideoBacklogRecoveryState::Inactive;
        VideoBacklogRecoveryEofReport { restored_staged_packets }
    }

    /// Ends a search once the rate is not above the normal one any more: what is staged goes
    /// back behind the queue, and a new search waits for a shorter queue. At a rate above the
    /// normal one the search goes on.
    pub fn reconcile_video_backlog_recovery_after_rate_change(
        &mut self,
        playback_rate: PlaybackRate,
    ) -> (r: VideoBacklogRecoveryRateChangeReport)
        requires
            old(self).wf(),
        ensures
            final(self).wf(),
            r.restored_staged_packets == if playback_rate@ <= NORMAL_RATE_BITS {
                old(self)@.staged.len()
            } else {
                0
            },
            final(self)@ == old(self)@.rate_changed(playback_rate),
    {
        if playback_rate.is_faster_than_normal() {
            return VideoBacklogRecoveryRateChangeReport { restored_staged_packets: 0 };
        }
        match self.state {
            VideoBacklogRecoveryState::ScanningForKeyframe { limits, .. } => {
                let restored_staged_packets: usize = self.staged.len();
                self.pending.append(&mut self.staged);
                self.staged_bytes = 0;
                self.state =
                VideoBacklogRecoveryState::BackoffUntilBacklogDrains {
                    rearm_pending_packets: limits.rearm_pending_packets,
                };
                self.rearm_video_backlog_recovery_after_drain();
                VideoBacklogRecoveryRateChangeReport { restored_staged_packets }
            },
            _ => VideoBacklogRecoveryRateChangeReport { restored_staged_packets: 0 },
        }
    }

    /// Forgets the proven keyframe and gives up a search, because another track is selected.
    pub fn reset_video_backlog_recovery_for_selected_track_change(&mut self)
        requires
            old(self).wf(),
        ensures
            final(self).wf(),
            final(self)@ == (VideoPacketQueueView {
                proven_keyframe_track: None,
                ..old(self)@.cancelled()
            }),
    {
        self.proven_keyframe_track = None;
        self.cancel_video_backlog_recovery_scan_for_discontinuity();
    }

    /// Gives up a search and what it staged, because the source jumps.
    pub fn cancel_video_backlog_recovery_scan_for_discontinuity(&mut self)
        ensures
            final(self).wf(),
            final(self)@ == old(self)@.cancelled(),
    {
        self.staged.clear();
        self.staged_bytes = 0;
        self.state = VideoBacklogRecoveryState::Inactive;
    }

    /// Decides what becomes of a packet that was read.
    pub fn route_pending_video_packet_for_backlog_recovery(
        &mut self,
        packet: PendingVideoPacket,
        selected: Option<TrackId>,
    ) -> (r: VideoBacklogRecoveryRouteOutcome)
        requires
            old(self).wf(),
        ensures
            final(self).wf(),
            r == old(self)@.route_outcome(packet),
            final(self)@ == old(self)@.routed(packet, selected),
    {
        let (generation, selected_track_id, limits) = match self.state {
            VideoBacklogRecoveryState::ScanningForKeyframe {
                generation,
                selected_track_id,
                limits,
            } => (generation, selected_track_id, limits),
            _ => {
                self.enqueue_pending_video_packet(packet, selected);
                return VideoBacklogRecoveryRouteOutcome::QueuedNormally;
            },
        };
        let is_recovery_keyframe = packet.generation == generation && packet.track_id
            == selected_track_id && packet.keyframe == PacketKeyframe::Keyframe;
        if is_recovery_keyframe {
            let discarded_pending_packets: usize = self.pending.len();
            let discarded_staged_packets: usize = self.staged.len();
            let recovery_keyframe_pts = packet.pts;
            self.pending.clear();
            self.staged.clear();
            self.staged_bytes = 0;
            self.state = VideoBacklogRecoveryState::Inactive;
            self.enqueue_pending_video_packet(packet, selected);
            assert(self@.pending =~= seq![packet]);
            return VideoBacklogRecoveryRouteOutcome::SwitchedAtKeyframe {
                discarded_pending_packets,
                discarded_staged_packets,
                recovery_keyframe_pts,
            };
        }
        let packet_bytes: usize = payload_len(&packet.encoded_bytes);
        let staged_bytes: usize = self.staged_bytes.saturating_add(packet_bytes);
        self.staged.push_back(packet);
        proof {
            assert(self.staged@.drop_last() =~= old(self).staged@);
        }
        self.staged_bytes = staged_bytes;
        let limit = if self.staged.len() >= limits.max_staged_packets {
            VideoBacklogRecoveryScanLimit::PacketCount
        } else if self.staged_bytes >= limits.max_staged_bytes {
            VideoBacklogRecoveryScanLimit::ByteCount
        } else {
            return VideoBacklogRecoveryRouteOutcome::StagedWhileScanning;
        };
        let restored_staged_packets: usize = self.staged.len();
        let restored_staged_bytes: usize = self.staged_bytes;
        self.pending.append(&mut self.staged);
        self.staged_bytes = 0;
        let pending_packets_after_restore: usize = self.pending.len();
        self.state =
        VideoBacklogRecoveryState::BackoffUntilBacklogDrains {
            rearm_pending_packets: limits.rearm_pending_packets,
        };
        VideoBacklogRecoveryRouteOutcome::ScanLimitReached {
            limit,
            restored_staged_packets,
            restored_staged_bytes,
            pending_packets_after_restore,
        }
    }

    /// Allows a new search where the queue has become short enough.
    fn rearm_video_backlog_recovery_after_drain(&mut self)
        requires
            old(self).wf(),
        ensures
            final(self).wf(),
            final(self)@ == old(self)@.rearmed(),
    {
        if let VideoBacklogRecoveryState::BackoffUntilBacklogDrains { rearm_pending_packets } =
            self.state {
            if self.pending.len() <= rearm_pending_packets {
                self.state = VideoBacklogRecoveryState::Inactive;
            }
        }
    }
}

/// No packet is lost and none overtakes another before a keyframe is found: whatever a packet
/// meets but the switch, it is the last one in order and every other one keeps its place.
pub proof fn law_packets_keep_their_order_until_a_switch(
    queue: VideoPacketQueueView,
    packet: PendingVideoPacket,
    selected: Option<TrackId>,
)
    requires
        queue.wf(),
        !queue.is_recovery_keyframe(packet),
    ensures
        queue.routed(packet, selected).in_order() == queue.in_order().push(packet),
        !(queue.route_outcome(packet) is SwitchedAtKeyframe),
{
    assert(queue.routed(packet, selected).in_order() =~= queue.in_order().push(packet));
}

/// A switch happens exactly at the keyframe that the search looks for, which is then the only
/// packet, and the search is over.
pub proof fn law_switch_happens_exactly_at_the_proven_keyframe(
    queue: VideoPacketQueueView,
    packet: PendingVideoPacket,
    selected: Option<TrackId>,
)
    requires
        queue.wf(),
    ensures
        queue.route_outcome(packet) is SwitchedAtKeyframe <==> queue.is_recovery_keyframe(packet),
        queue.is_recovery_keyframe(packet) ==> {
            &&& queue.routed(packet, selected).in_order() == seq![packet]
            &&& queue.routed(packet, selected).state == VideoBacklogRecoveryState::Inactive
            &&& packet.keyframe == PacketKeyframe::Keyframe
        },
{
    if queue.is_recovery_keyframe(packet) {
        assert(queue.routed(packet, selected).in_order() =~= seq![packet]);
    }
}

/// The staging area stays within its bounds: before every packet it is below both of them, and
/// after every packet again.
pub proof fn law_staging_is_bounded(
    queue: VideoPacketQueueView,
    packet: PendingVideoPacket,
    selected: Option<TrackId>,
)
    requires
        queue.wf(),
    ensures
        queue.routed(packet, selected).wf(),
        queue.routed(packet, selected).state matches VideoBacklogRecoveryState::ScanningForKeyframe {
            limits,
            ..
        } ==> {
            &&& queue.routed(packet, selected).staged.len() < limits.max_staged_packets
            &&& total_bytes(queue.routed(packet, selected).staged) < limits.max_staged_bytes
        },
{
}

/// A search that ended at a bound does not start again at once. Where the number of packets was
/// the bound, the queue that it leaves is longer than the length at which a search is allowed
/// again.
pub proof fn law_ended_scan_waits_for_the_backlog(
    queue: VideoPacketQueueView,
    packet: PendingVideoPacket,
    selected: Option<TrackId>,
    context: VideoBacklogRecoveryContext,
)
    requires
        queue.wf(),
        queue.route_outcome(packet) is ScanLimitReached,
    ensures
        queue.route_outcome(packet)->limit == VideoBacklogRecoveryScanLimit::PacketCount
            ==> queue.routed(packet, selected).rearmed() == queue.routed(packet, selected),
        queue.routed(packet, selected).scan_start(context)
            == VideoBacklogRecoveryScanStart::BackoffUntilBacklogDrains,
{
}

/// Giving a search up, at the end of the stream or at a rate that is not above the normal one,
/// keeps every packet in its place.
pub proof fn law_abandoned_scan_restores_every_packet(
    queue: VideoPacketQueueView,
    rate: PlaybackRate,
)
    requires
        queue.wf(),
    ensures
        queue.restored(VideoBacklogRecoveryState::Inactive).pending == queue.in_order(),
        queue.rate_changed(rate).in_order() == queue.in_order(),
        rate@ <= NORMAL_RATE_BITS ==> queue.rate_changed(rate).pending == queue.in_order(),
{
    assert(queue.rate_changed(rate).in_order() =~= queue.in_order());
    assert(rate@ <= NORMAL_RATE_BITS ==> queue.rate_changed(rate).pending =~= queue.in_order());
}

/// The bytes of a run of packets are those of its packets together.
pub proof fn law_bytes_add_up(packets: Seq<PendingVideoPacket>, packet: PendingVideoPacket)
    ensures
        total_bytes(Seq::<PendingVideoPacket>::empty()) == 0,
        total_bytes(packets.push(packet)) == total_bytes(packets) + contents(
            packet.encoded_bytes,
        ).len(),
{
    assert(packets.push(packet).drop_last() =~= packets);
}

/// Without a search a packet goes to the end of the queue. During a search the keyframe of the
/// searched track and generation is the only packet afterwards, and the search is over. Every
/// other packet is staged behind those that are, until their number or their bytes reach a bound:
/// then all of them go behind the queue in their order, and the search waits for a short queue.
pub proof fn law_read_packet_is_queued_staged_or_switched_to(
    before: VideoPacketQueue,
    after: VideoPacketQueue,
    packet: PendingVideoPacket,
    selected: Option<TrackId>,
    outcome: VideoBacklogRecoveryRouteOutcome,
)
    requires
        before.wf(),
        exists|queue: &mut VideoPacketQueue|
            *queue == before && *final(queue) == after && #[trigger] call_ensures(
                VideoPacketQueue::route_pending_video_packet_for_backlog_recovery,
                (queue, packet, selected),
                outcome,
            ),
    ensures
        after@.admission_waits_for_keyframe == before@.admission_waits_for_keyframe,
        !(before@.state is ScanningForKeyframe) ==> {
            &&& after@.pending == before@.pending.push(packet)
            &&& after@.staged == before@.staged
            &&& after@.state == before@.state
            &&& outcome == VideoBacklogRecoveryRouteOutcome::QueuedNormally
        },
        before@.state matches VideoBacklogRecoveryState::ScanningForKeyframe {
            generation,
            selected_track_id,
            limits,
        } ==> {
            let found = packet.keyframe == PacketKeyframe::Keyframe && packet.track_id
                == selected_track_id && packet.generation == generation;
            let many = before@.staged.len() + 1 >= limits.max_staged_packets;
            let big = total_bytes(before@.staged) + contents(packet.encoded_bytes).len()
                >= limits.max_staged_bytes;
            &&& found ==> {
                &&& after@.pending == seq![packet]
                &&& after@.staged.len() == 0
                &&& after@.state == VideoBacklogRecoveryState::Inactive
                &&& outcome == (VideoBacklogRecoveryRouteOutcome::SwitchedAtKeyframe {
                    discarded_pending_packets: before@.pending.len() as usize,
                    discarded_staged_packets: before@.staged.len() as usize,
                    recovery_keyframe_pts: packet.pts,
                })
            }
            &&& !found && !many && !big ==> {
                &&& after@.pending == before@.pending
                &&& after@.staged == before@.staged.push(packet)
                &&& after@.state == before@.state
                &&& outcome == VideoBacklogRecoveryRouteOutcome::StagedWhileScanning
            }
            &&& !found && (many || big) ==> {
                &&& after@.pending == before@.pending + before@.staged.push(packet)
                &&& after@.staged.len() == 0
                &&& after@.state == (VideoBacklogRecoveryState::BackoffUntilBacklogDrains {
                    rearm_pending_packets: limits.rearm_pending_packets,
                })
                &&& outcome is ScanLimitReached
                &&& outcome->limit == VideoBacklogRecoveryScanLimit::PacketCount <==> many
                &&& outcome->restored_staged_packets == (before@.staged.len() + 1) as usize
                &&& outcome->pending_packets_after_restore == (before@.pending.len()
                    + before@.staged.len() + 1) as usize
            }
        },
{
    law_bytes_add_up(before@.staged, packet);
}

/// A keyframe is proven by a packet that the container marks as one, of the selected track, as
/// soon as it is in the queue, and by nothing else. A packet that is put into the queue is the
/// last one.
pub proof fn law_marked_packet_of_the_selected_track_proves_a_keyframe(
    before: VideoPacketQueue,
    after: VideoPacketQueue,
    packet: PendingVideoPacket,
    selected: Option<TrackId>,
)
    requires
        exists|queue: &mut VideoPacketQueue|
            *queue == before && *final(queue) == after && #[trigger] call_ensures(
                VideoPacketQueue::enqueue_pending_video_packet,
                (queue, packet, selected),
                (),
            ),
    ensures
        after@.pending == before@.pending.push(packet),
        after@.staged == before@.staged,
        after@.state == before@.state,
        packet.keyframe == PacketKeyframe::Keyframe && selected == Some(packet.track_id)
            ==> after@.proven_keyframe_track == selected,
        packet.keyframe != PacketKeyframe::Keyframe || selected != Some(packet.track_id)
            ==> after@.proven_keyframe_track == before@.proven_keyframe_track,
{
}

/// A search starts exactly where none runs, none waits for a shorter queue, a track is selected
/// whose format is AV1 or VP9, the container has proven a keyframe of it, and the decoder does not
/// wait for one. It starts for that track in the current generation, and no packet moves. A search
/// that does not start changes nothing.
pub proof fn law_search_starts_only_where_it_can_succeed(
    before: VideoPacketQueue,
    after: VideoPacketQueue,
    limits: VideoBacklogRecoveryScanLimits,
    context: VideoBacklogRecoveryContext,
    start: VideoBacklogRecoveryScanStart,
)
    requires
        exists|queue: &mut VideoPacketQueue|
            *queue == before && *final(queue) == after && #[trigger] call_ensures(
                VideoPacketQueue::begin_video_backlog_recovery_scan,
                (queue, limits, context),
                start,
            ),
    ensures
        after@.pending == before@.pending && after@.staged == before@.staged,
        start is Started <==> {
            &&& before@.state is Inactive
            &&& context.selected_track_id is Some
            &&& context.codec == Some(VideoCodec::Av1) || context.codec == Some(VideoCodec::Vp9)
            &&& before@.proven_keyframe_track == context.selected_track_id
            &&& !context.decoder_needs_keyframe
        },
        start is Started ==> {
            &&& after@.state is ScanningForKeyframe
            &&& after@.state->generation == context.seek_generation
            &&& Some(after@.state->selected_track_id) == context.selected_track_id
            &&& limits.max_staged_packets > limits.rearm_pending_packets && limits.max_staged_bytes
                > 0 ==> after@.state->limits == limits
        },
        !(start is Started) ==> after@ == before@,
        start is AlreadyScanning <==> before@.state is ScanningForKeyframe,
        start is BackoffUntilBacklogDrains <==> before@.state is BackoffUntilBacklogDrains,
        start is NoSelectedVideo <==> before@.state is Inactive && context.selected_track_id is None,
        start is NoActiveVideoRequirement <==> before@.state is Inactive
            && context.selected_track_id is Some && context.codec is None,
        start is CodecWithoutNoFlushRecoveryProof <==> before@.state is Inactive
            && context.selected_track_id is Some && context.codec is Some && context.codec->0
            != VideoCodec::Av1 && context.codec->0 != VideoCodec::Vp9,
{
}

/// Bounds of a search are at least one packet and one byte, and the length at which a new search
/// is allowed lies below the number of packets; bounds that are so already stay.
pub proof fn law_bounds_are_made_sensible(
    limits: VideoBacklogRecoveryScanLimits,
    sane: VideoBacklogRecoveryScanLimits,
)
    requires
        call_ensures(VideoBacklogRecoveryScanLimits::sanitized, (limits,), sane),
    ensures
        limits.max_staged_packets > 0 ==> sane.max_staged_packets == limits.max_staged_packets,
        limits.max_staged_packets == 0 ==> sane.max_staged_packets == 1,
        limits.max_staged_bytes > 0 ==> sane.max_staged_bytes == limits.max_staged_bytes,
        limits.max_staged_bytes == 0 ==> sane.max_staged_bytes == 1,
        limits.rearm_pending_packets < limits.max_staged_packets ==> sane.rearm_pending_packets
            == limits.rearm_pending_packets,
        limits.rearm_pending_packets >= limits.max_staged_packets ==> sane.rearm_pending_packets
            == sane.max_staged_packets - 1,
{
}

/// Packets leave the queue in the order in which they came. A search that waited for a shorter
/// queue is allowed again exactly once the queue is not longer than its bound.
pub proof fn law_queue_is_first_in_first_out(
    before: VideoPacketQueue,
    after: VideoPacketQueue,
    popped: Option<PendingVideoPacket>,
    front: Option<&PendingVideoPacket>,
)
    requires
        exists|queue: &mut VideoPacketQueue|
            *queue == before && *final(queue) == after && #[trigger] call_ensures(
                VideoPacketQueue::pop_pending_video_packet_front,
                (queue,),
                popped,
            ),
        call_ensures(VideoPacketQueue::front_pending_video_packet, (&before,), front),
    ensures
        before@.pending.len() == 0 ==> popped is None && front is None && after@.pending
            == before@.pending,
        before@.pending.len() > 0 ==> {
            &&& popped == Some(before@.pending[0]) && front is Some && *front->0
                == before@.pending[0]
            &&& after@.pending.len() == before@.pending.len() - 1
            &&& forall|i: int|
                0 <= i < after@.pending.len() ==> #[trigger] after@.pending[i]
                    == before@.pending[i + 1]
        },
        after@.staged == before@.staged,
        before@.state matches VideoBacklogRecoveryState::BackoffUntilBacklogDrains {
            rearm_pending_packets,
        } ==> if after@.pending.len() <= rearm_pending_packets {
            after@.state is Inactive
        } else {
            after@.state == before@.state
        },
        !(before@.state is BackoffUntilBacklogDrains) ==> after@.state == before@.state,
{
}

/// A search that is given up loses no packet: at the end of the stream, and once the rate is not
/// above the normal one, what was staged stands behind the queue in its order. Above the normal
/// rate a search goes on.
pub proof fn law_search_given_up_loses_no_packet(
    before: VideoPacketQueue,
    ended: VideoPacketQueue,
    report: VideoBacklogRecoveryEofReport,
    changed: VideoPacketQueue,
    rate: PlaybackRate,
    rate_report: VideoBacklogRecoveryRateChangeReport,
)
    requires
        before.wf(),
        exists|queue: &mut VideoPacketQueue|
            *queue == before && *final(queue) == ended && #[trigger] call_ensures(
                VideoPacketQueue::finish_video_backlog_recovery_scan_at_eof,
                (queue,),
                report,
            ),
        exists|queue: &mut VideoPacketQueue|
            *queue == before && *final(queue) == changed && #[trigger] call_ensures(
                VideoPacketQueue::reconcile_video_backlog_recovery_after_rate_change,
                (queue, rate),
                rate_report,
            ),
    ensures
        ended@.pending == before@.pending + before@.staged,
        ended@.staged.len() == 0 && ended@.state is Inactive,
        report.restored_staged_packets == before@.staged.len(),
        rate@ > 0x3f80_0000 ==> changed@ == before@ && rate_report.restored_staged_packets == 0,
        rate@ <= 0x3f80_0000 && before@.state is ScanningForKeyframe ==> {
            &&& changed@.pending == before@.pending + before@.staged
            &&& changed@.staged.len() == 0
            &&& rate_report.restored_staged_packets == before@.staged.len()
            &&& changed@.pending.len() > before@.state->limits.rearm_pending_packets
                ==> changed@.state is BackoffUntilBacklogDrains
                && changed@.state->rearm_pending_packets
                == before@.state->limits.rearm_pending_packets
            &&& changed@.pending.len() <= before@.state->limits.rearm_pending_packets
                ==> changed@.state is Inactive
        },
        rate@ <= 0x3f80_0000 && !(before@.state is ScanningForKeyframe) ==> changed@ == before@,
{
}

/// A discontinuity empties the queue and the staging area, ends a search and the wait for a
/// keyframe. Another selected track forgets the proven keyframe and the search, and keeps the
/// queue.
pub proof fn law_discontinuity_starts_afresh(
    before: VideoPacketQueue,
    cleared: VideoPacketQueue,
    reset: VideoPacketQueue,
)
    requires
        exists|queue: &mut VideoPacketQueue|
            *queue == before && *final(queue) == cleared && #[trigger] call_ensures(
                VideoPacketQueue::clear_pending_video_packets,
                (queue,),
                (),
            ),
        exists|queue: &mut VideoPacketQueue|
            *queue == before && *final(queue) == reset && #[trigger] call_ensures(
                VideoPacketQueue::reset_video_backlog_recovery_for_selected_track_change,
                (queue,),
                (),
            ),
    ensures
        cleared@.pending.len() == 0 && cleared@.staged.len() == 0,
        cleared@.state is Inactive && !cleared@.admission_waits_for_keyframe,
        cleared@.proven_keyframe_track == before@.proven_keyframe_track,
        reset@.pending == before@.pending && reset@.staged.len() == 0,
        reset@.state is Inactive && reset@.proven_keyframe_track is None,
{
}

/// A backlog that is shed for the sake of the audio is counted and gone, and from then on every
/// packet that the container marks as no keyframe is dropped, up to the first other one.
pub proof fn law_shed_backlog_resumes_at_a_keyframe(
    before: VideoPacketQueue,
    shed: VideoPacketQueue,
    count: usize,
    keyframe: PacketKeyframe,
    asked: VideoPacketQueue,
    dropped: bool,
)
    requires
        exists|queue: &mut VideoPacketQueue|
            *queue == before && *final(queue) == shed && #[trigger] call_ensures(
                VideoPacketQueue::shed_pending_video_backlog_for_audio_catchup,
                (queue,),
                count,
            ),
        exists|queue: &mut VideoPacketQueue|
            *queue == shed && *final(queue) == asked && #[trigger] call_ensures(
                VideoPacketQueue::video_admission_should_drop_for_keyframe_resync,
                (queue, keyframe),
                dropped,
            ),
    ensures
        count == before@.pending.len(),
        shed@.pending.len() == 0 && shed@.staged == before@.staged && shed@.state == before@.state,
        dropped <==> keyframe == PacketKeyframe::NotKeyframe,
        asked@.admission_waits_for_keyframe <==> dropped,
        asked@.pending == shed@.pending && asked@.state == shed@.state,
{
}

/// Without a shed backlog no packet is dropped. The source is read on past a full queue exactly
/// during a search of the current generation and the selected track, with a decoder that does not
/// wait for a keyframe.
pub proof fn law_search_reads_on_past_a_full_queue(
    queue: VideoPacketQueue,
    asked: VideoPacketQueue,
    keyframe: PacketKeyframe,
    dropped: bool,
    context: VideoBacklogRecoveryContext,
    allowed: bool,
)
    requires
        exists|own: &mut VideoPacketQueue|
            *own == queue && *final(own) == asked && #[trigger] call_ensures(
                VideoPacketQueue::video_admission_should_drop_for_keyframe_resync,
                (own, keyframe),
                dropped,
            ),
        call_ensures(
            VideoPacketQueue::video_backlog_recovery_scan_allows_demux,
            (&queue, context),
            allowed,
        ),
    ensures
        !queue@.admission_waits_for_keyframe ==> !dropped && asked@ == queue@,
        allowed <==> queue@.state is ScanningForKeyframe && queue@.state->generation
            == context.seek_generation && context.selected_track_id == Some(
            queue@.state->selected_track_id,
        ) && !context.decoder_needs_keyframe,
{
}

/// A packet that reaches the queue while it is read proves a keyframe as any other does, also where
/// it ends a search; one that is only staged proves nothing.
pub proof fn law_read_packet_proves_a_keyframe_once_it_is_queued(
    before: VideoPacketQueue,
    after: VideoPacketQueue,
    packet: PendingVideoPacket,
    selected: Option<TrackId>,
    outcome: VideoBacklogRecoveryRouteOutcome,
)
    requires
        exists|queue: &mut VideoPacketQueue|
            *queue == before && *final(queue) == after && #[trigger] call_ensures(
                VideoPacketQueue::route_pending_video_packet_for_backlog_recovery,
                (queue, packet, selected),
                outcome,
            ),
    ensures
        outcome is QueuedNormally || outcome is SwitchedAtKeyframe ==> if packet.keyframe
            == PacketKeyframe::Keyframe && selected == Some(packet.track_id) {
            after@.proven_keyframe_track == selected
        } else {
            after@.proven_keyframe_track == before@.proven_keyframe_track
        },
        outcome is StagedWhileScanning || outcome is ScanLimitReached
            ==> after@.proven_keyframe_track == before@.proven_keyframe_track,
        outcome is ScanLimitReached && total_bytes(before@.staged.push(packet)) <= usize::MAX
            ==> outcome->restored_staged_bytes == total_bytes(before@.staged.push(packet)),
{
}

/// Of the reasons for which a search does not start, the container's proof counts before the wait
/// of the decoder. The format that does not allow one is told, and the bounds of a search are made
/// sensible.
pub proof fn law_search_tells_why_it_does_not_start(
    before: VideoPacketQueue,
    after: VideoPacketQueue,
    limits: VideoBacklogRecoveryScanLimits,
    sane: VideoBacklogRecoveryScanLimits,
    context: VideoBacklogRecoveryContext,
    start: VideoBacklogRecoveryScanStart,
)
    requires
        exists|queue: &mut VideoPacketQueue|
            *queue == before && *final(queue) == after && #[trigger] call_ensures(
                VideoPacketQueue::begin_video_backlog_recovery_scan,
                (queue, limits, context),
                start,
            ),
        call_ensures(VideoBacklogRecoveryScanLimits::sanitized, (limits,), sane),
    ensures
        start is NoProvenKeyframeObserved <==> before@.state is Inactive
            && context.selected_track_id is Some && (context.codec == Some(VideoCodec::Av1)
            || context.codec == Some(VideoCodec::Vp9)) && before@.proven_keyframe_track
            != context.selected_track_id,
        start is DecoderAwaitingKeyframe <==> before@.state is Inactive
            && context.selected_track_id is Some && (context.codec == Some(VideoCodec::Av1)
            || context.codec == Some(VideoCodec::Vp9)) && before@.proven_keyframe_track
            == context.selected_track_id && context.decoder_needs_keyframe,
        start matches VideoBacklogRecoveryScanStart::CodecWithoutNoFlushRecoveryProof { codec }
            ==> context.codec == Some(codec),
        start is Started ==> after@.state->limits == sane,
        after@.proven_keyframe_track == before@.proven_keyframe_track,
        after@.admission_waits_for_keyframe == before@.admission_waits_for_keyframe,
{
}

/// What is only about the packets leaves alone what is known of keyframes: taking a packet, giving a
/// search up, and shedding the backlog, but that from then on a keyframe is waited for.
pub proof fn law_packets_leave_keyframes_alone(
    before: VideoPacketQueue,
    popped: VideoPacketQueue,
    packet: Option<PendingVideoPacket>,
    ended: VideoPacketQueue,
    report: VideoBacklogRecoveryEofReport,
    cancelled: VideoPacketQueue,
    shed: VideoPacketQueue,
    count: usize,
    reset: VideoPacketQueue,
)
    requires
        exists|queue: &mut VideoPacketQueue|
            *queue == before && *final(queue) == popped && #[trigger] call_ensures(
                VideoPacketQueue::pop_pending_video_packet_front,
                (queue,),
                packet,
            ),
        exists|queue: &mut VideoPacketQueue|
            *queue == before && *final(queue) == ended && #[trigger] call_ensures(
                VideoPacketQueue::finish_video_backlog_recovery_scan_at_eof,
                (queue,),
                report,
            ),
        exists|queue: &mut VideoPacketQueue|
            *queue == before && *final(queue) == cancelled && #[trigger] call_ensures(
                VideoPacketQueue::cancel_video_backlog_recovery_scan_for_discontinuity,
                (queue,),
                (),
            ),
        exists|queue: &mut VideoPacketQueue|
            *queue == before && *final(queue) == shed && #[trigger] call_ensures(
                VideoPacketQueue::shed_pending_video_backlog_for_audio_catchup,
                (queue,),
                count,
            ),
        exists|queue: &mut VideoPacketQueue|
            *queue == before && *final(queue) == reset && #[trigger] call_ensures(
                VideoPacketQueue::reset_video_backlog_recovery_for_selected_track_change,
                (queue,),
                (),
            ),
    ensures
        popped@.proven_keyframe_track == before@.proven_keyframe_track,
        popped@.admission_waits_for_keyframe == before@.admission_waits_for_keyframe,
        ended@.proven_keyframe_track == before@.proven_keyframe_track,
        ended@.admission_waits_for_keyframe == before@.admission_waits_for_keyframe,
        cancelled@.proven_keyframe_track == before@.proven_keyframe_track,
        cancelled@.admission_waits_for_keyframe == before@.admission_waits_for_keyframe,
        cancelled@.pending == before@.pending,
        cancelled@.staged.len() == 0 && cancelled@.state is Inactive,
        shed@.proven_keyframe_track == before@.proven_keyframe_track,
        reset@.admission_waits_for_keyframe == before@.admission_waits_for_keyframe,
{
}

/// A new queue is empty, without a search and without a proof, and the lengths that a queue tells
/// are those of what it holds.
pub proof fn law_lengths_are_those_of_what_is_held(
    made: VideoPacketQueue,
    queue: VideoPacketQueue,
    pending: usize,
    staged: usize,
    bytes: usize,
)
    requires
        call_ensures(VideoPacketQueue::new, (), made),
        call_ensures(VideoPacketQueue::pending_video_packet_len, (&queue,), pending),
        call_ensures(VideoPacketQueue::video_backlog_recovery_staged_packet_len, (&queue,), staged),
        call_ensures(VideoPacketQueue::video_backlog_recovery_staged_bytes, (&queue,), bytes),
    ensures
        made@.pending.len() == 0 && made@.staged.len() == 0,
        made@.state is Inactive && made@.proven_keyframe_track is None,
        !made@.admission_waits_for_keyframe,
        pending == queue@.pending.len(),
        staged == queue@.staged.len(),
        bytes == total_bytes(queue@.staged),
{
}

} // verus!
