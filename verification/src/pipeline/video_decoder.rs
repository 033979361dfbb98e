//! Decisions about a video decoder that runs by itself.
use vstd::prelude::*;

verus! {

/// Why frames that are uploaded from host memory find no place.
#[derive(Debug, Clone, Copy, PartialEq, Eq, Structural)]
pub enum HostUploadBackpressureReason {
    /// All places for uploads are taken.
    NoFreeUploadSlot,
    /// As many frames wait as may wait.
    ReadyQueueFull {
        /// Number of frames.
        queued_frames: usize,
        /// Number of frames that may wait.
        capacity: usize,
    },
}

/// Whether frames that are uploaded from host memory find a place.
#[derive(Debug, Clone, Copy, PartialEq, Eq, Structural)]
pub enum HostUploadResourceStatus {
    /// The decoder knows, and says what keeps them out.
    Available(Option<HostUploadBackpressureReason>),
    /// There is no decoder.
    AbsentDecoder,
    /// The decoder has not made its places yet.
    AbsentResource,
    /// The decoder does not upload from host memory.
    UnsupportedBackend,
}

/// How full the way to a decoder is.
#[derive(Debug, Clone, Copy, PartialEq, Eq, Structural)]
pub struct DecoderControlChannelPressure {
    /// Messages on the way.
    pub control_channel_len: usize,
    /// Messages that find a place.
    pub control_channel_capacity: usize,
}

/// Why a decoder takes no more messages.
#[derive(Debug, Clone, Copy, PartialEq, Eq, Structural)]
pub enum VideoDecoderControlBackpressureReason {
    /// The way to it is full.
    ControlChannelFull {
        /// Messages on the way.
        queued_messages: usize,
        /// Messages that find a place.
        capacity: usize,
    },
}

/// Why no packet may be sent to the decoder.
#[derive(Debug, Clone, Copy, PartialEq, Eq, Structural)]
pub enum VideoDecoderSendBackpressure {
    /// There is no decoder.
    AbsentDecoder,
    /// Frames that are uploaded from host memory find no place.
    HostUpload(HostUploadBackpressureReason),
    /// The way to the decoder is full.
    DecoderControl(VideoDecoderControlBackpressureReason),
}

/// What keeps a decoder from taking messages: a way that is full. A way without places does not
/// fill up.
pub open spec fn control_backpressure(
    pressure: Option<DecoderControlChannelPressure>,
) -> Option<VideoDecoderControlBackpressureReason> {
    match pressure {
        None => None,
        Some(pressure) => if pressure.control_channel_capacity == 0 || pressure.control_channel_len
            < pressure.control_channel_capacity {
            None
        } else {
            Some(
                VideoDecoderControlBackpressureReason::ControlChannelFull {
                    queued_messages: pressure.control_channel_len,
                    capacity: pressure.control_channel_capacity,
                },
            )
        },
    }
}

/// What keeps a decoder from taking messages.
pub fn control_backpressure_reason(pressure: Option<DecoderControlChannelPressure>) -> (r: Option<
    VideoDecoderControlBackpressureReason,
>)
    ensures
        r == control_backpressure(pressure),
{
    match pressure {
        None => None,
        Some(pressure) => {
            if pressure.control_channel_capacity == 0 || pressure.control_channel_len
                < pressure.control_channel_capacity {
                return None;
            }
            Some(
                VideoDecoderControlBackpressureReason::ControlChannelFull {
                    queued_messages: pressure.control_channel_len,
                    capacity: pressure.control_channel_capacity,
                },
            )
        },
    }
}

/// What keeps packets from being sent. A decoder that does not upload from host memory, or has
/// not made its places yet, is held back by nothing here.
pub open spec fn send_backpressure(
    status: HostUploadResourceStatus,
    pressure: Option<DecoderControlChannelPressure>,
) -> Option<VideoDecoderSendBackpressure> {
    match status {
        HostUploadResourceStatus::Available(upload) => match control_backpressure(pressure) {
            Some(reason) => Some(VideoDecoderSendBackpressure::DecoderControl(reason)),
            None => match upload {
                Some(reason) => Some(VideoDecoderSendBackpressure::HostUpload(reason)),
                None => None,
            },
        },
        HostUploadResourceStatus::AbsentDecoder => {
            Some(VideoDecoderSendBackpressure::AbsentDecoder)
        },
        HostUploadResourceStatus::AbsentResource
        | HostUploadResourceStatus::UnsupportedBackend => None,
    }
}

/// What keeps packets from being sent.
pub fn send_backpressure_reason(
    status: HostUploadResourceStatus,
    pressure: Option<DecoderControlChannelPressure>,
) -> (r: Option<VideoDecoderSendBackpressure>)
    ensures
        r == send_backpressure(status, pressure),
{
    match status {
        HostUploadResourceStatus::Available(upload) => {
            if let Some(reason) = control_backpressure_reason(pressure) {
                return Some(VideoDecoderSendBackpressure::DecoderControl(reason));
            }
            match upload {
                Some(reason) => Some(VideoDecoderSendBackpressure::HostUpload(reason)),
                None => None,
            }
        },
        HostUploadResourceStatus::AbsentDecoder => {
            Some(VideoDecoderSendBackpressure::AbsentDecoder)
        },
        HostUploadResourceStatus::AbsentResource
        | HostUploadResourceStatus::UnsupportedBackend => None,
    }
}

/// How far a decoder has come with handing over what it holds back. `D` is what it says once it
/// was asked to.
#[derive(Debug, Clone, Copy, PartialEq, Eq)]
pub enum VideoDecoderEndOfStreamDrainState<D> {
    /// It was not asked to.
    Idle,
    /// It was.
    Begun(D),
}

/// Why one cannot wait for a decoder to do something.
#[derive(Debug, Clone, Copy, PartialEq, Eq, Structural)]
pub enum VideoDecoderActivityUnavailableReason {
    /// It does not tell.
    UnsupportedNotifier,
    /// It has stopped.
    DecoderStopped,
    /// It has not started yet.
    NotStarted,
}

/// Whether one can wait for a decoder to do something. `S` is with what one waits.
#[derive(Debug, PartialEq, Eq)]
pub enum VideoDecoderActivitySnapshot<S> {
    /// One can, from an epoch on, where it is known.
    Available {
        /// Epoch from which on one waits.
        captured_epoch: Option<u64>,
        /// With what one waits.
        subscription: S,
    },
    /// One cannot.
    Unavailable {
        /// Why.
        reason: VideoDecoderActivityUnavailableReason,
    },
}

/// Whether one can wait for the player's decoder to do something.
#[derive(Debug, PartialEq, Eq)]
pub enum VideoDecoderActivityStatus<S> {
    /// There is no decoder.
    AbsentDecoder,
    /// The decoder does not tell.
    Unsupported,
    /// One cannot wait at the moment.
    Unavailable(VideoDecoderActivityUnavailableReason),
    /// One can.
    Available {
        /// From when on.
        snapshot: VideoDecoderActivitySnapshot<S>,
    },
}

impl<S> VideoDecoderActivityStatus<S> {
    /// The status of a decoder by what it says of itself.
    pub open spec fn of(snapshot: Option<VideoDecoderActivitySnapshot<S>>) -> Self {
        match snapshot {
            None => VideoDecoderActivityStatus::AbsentDecoder,
            Some(VideoDecoderActivitySnapshot::Available { captured_epoch, subscription }) => {
                VideoDecoderActivityStatus::Available {
                    snapshot: VideoDecoderActivitySnapshot::Available { captured_epoch, subscription },
                }
            },
            Some(VideoDecoderActivitySnapshot::Unavailable { reason }) => {
                if reason == VideoDecoderActivityUnavailableReason::UnsupportedNotifier {
                    VideoDecoderActivityStatus::Unsupported
                } else {
                    VideoDecoderActivityStatus::Unavailable(reason)
                }
            },
        }
    }

    /// The status of a decoder by what it says of itself.
    pub fn from_snapshot(snapshot: Option<VideoDecoderActivitySnapshot<S>>) -> (r: Self)
        ensures
            r == Self::of(snapshot),
    {
        match snapshot {
            None => VideoDecoderActivityStatus::AbsentDecoder,
            Some(VideoDecoderActivitySnapshot::Available { captured_epoch, subscription }) => {
                VideoDecoderActivityStatus::Available {
                    snapshot: VideoDecoderActivitySnapshot::Available { captured_epoch, subscription },
                }
            },
            Some(VideoDecoderActivitySnapshot::Unavailable { reason }) => match reason {
                VideoDecoderActivityUnavailableReason::UnsupportedNotifier => {
                    VideoDecoderActivityStatus::Unsupported
                },
                _ => VideoDecoderActivityStatus::Unavailable(reason),
            },
        }
    }

    /// Whether one can wait: the decoder tells, and the epoch from which on is known.
    pub fn can_wait_for_activity(&self) -> (r: bool)
        ensures
            r == (*self matches VideoDecoderActivityStatus::Available { snapshot } && (
            snapshot matches VideoDecoderActivitySnapshot::Available { captured_epoch, .. }
                && captured_epoch is Some)),
    {
        match self {
            VideoDecoderActivityStatus::Available { snapshot } => match snapshot {
                VideoDecoderActivitySnapshot::Available { captured_epoch, .. } => {
                    captured_epoch.is_some()
                },
                VideoDecoderActivitySnapshot::Unavailable { .. } => false,
            },
            _ => false,
        }
    }
}

/// A decoder is kept from taking messages exactly where the way to it has places and all of them
/// are taken; the reason tells how many.
pub proof fn law_way_to_the_decoder_is_full_when_no_place_is_left(
    pressure: Option<DecoderControlChannelPressure>,
    reason: Option<VideoDecoderControlBackpressureReason>,
)
    requires
        call_ensures(control_backpressure_reason, (pressure,), reason),
    ensures
        reason is Some <==> pressure is Some && pressure->0.control_channel_capacity > 0
            && pressure->0.control_channel_len >= pressure->0.control_channel_capacity,
        reason matches Some(
            VideoDecoderControlBackpressureReason::ControlChannelFull { queued_messages, capacity },
        ) ==> queued_messages == pressure->0.control_channel_len && capacity
            == pressure->0.control_channel_capacity,
{
}

/// Packets go to a decoder exactly where there is one and neither the way to it nor its places for
/// uploads hold them back. A full way counts before places that are taken, and a decoder without
/// such places is not held back.
pub proof fn law_packets_are_held_back_only_for_a_reason(
    status: HostUploadResourceStatus,
    pressure: Option<DecoderControlChannelPressure>,
    control: Option<VideoDecoderControlBackpressureReason>,
    reason: Option<VideoDecoderSendBackpressure>,
)
    requires
        call_ensures(control_backpressure_reason, (pressure,), control),
        call_ensures(send_backpressure_reason, (status, pressure), reason),
    ensures
        status is AbsentDecoder <==> reason == Some(VideoDecoderSendBackpressure::AbsentDecoder),
        status is AbsentResource || status is UnsupportedBackend ==> reason is None,
        status matches HostUploadResourceStatus::Available(upload) ==> {
            &&& reason is None <==> control is None && upload is None
            &&& control matches Some(full) ==> reason == Some(
                VideoDecoderSendBackpressure::DecoderControl(full),
            )
            &&& control is None && upload is Some ==> reason == Some(
                VideoDecoderSendBackpressure::HostUpload(upload->0),
            )
        },
{
}

/// One can wait for a decoder exactly where there is one that tells of itself and the epoch from
/// which on is known. One that never tells is told apart from one that does not at the moment.
pub proof fn law_one_waits_only_for_a_decoder_that_tells<S>(
    snapshot: Option<VideoDecoderActivitySnapshot<S>>,
    status: VideoDecoderActivityStatus<S>,
    can_wait: bool,
)
    requires
        call_ensures(VideoDecoderActivityStatus::<S>::from_snapshot, (snapshot,), status),
        call_ensures(VideoDecoderActivityStatus::<S>::can_wait_for_activity, (&status,), can_wait),
    ensures
        can_wait <==> (snapshot matches Some(
            VideoDecoderActivitySnapshot::Available { captured_epoch, .. },
        ) && captured_epoch is Some),
        status is AbsentDecoder <==> snapshot is None,
        snapshot is Some && snapshot->0 is Available ==> status
            == (VideoDecoderActivityStatus::Available { snapshot: snapshot->0 }),
        snapshot matches Some(VideoDecoderActivitySnapshot::Unavailable { reason }) ==> {
            &&& reason is UnsupportedNotifier <==> status is Unsupported
            &&& !(reason is UnsupportedNotifier) ==> status
                == VideoDecoderActivityStatus::<S>::Unavailable(reason)
        },
{
}

} // verus!
