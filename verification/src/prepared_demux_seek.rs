//! Seeks that a worker of the source carries out.
use crate::demux::{DemuxSeekRequest, DemuxSeekResult};
use core::cmp::Ordering;
use vstd::std_specs::cmp::PartialOrdSpec;
use vstd::prelude::*;

verus! {

/// Identity of one seek. Identities of later seeks are larger.
#[derive(Debug, Clone, Copy, PartialEq, Eq, Structural, Ord, Hash)]
pub struct PreparedDemuxSeekRequestId(pub u64);

impl PartialOrd for PreparedDemuxSeekRequestId {
    fn partial_cmp(&self, other: &Self) -> (r: Option<Ordering>) {
        if self.0 < other.0 {
            Some(Ordering::Less)
        } else if self.0 > other.0 {
            Some(Ordering::Greater)
        } else {
            Some(Ordering::Equal)
        }
    }
}

impl vstd::std_specs::cmp::PartialOrdSpecImpl for PreparedDemuxSeekRequestId {
    open spec fn obeys_partial_cmp_spec() -> bool {
        true
    }

    open spec fn partial_cmp_spec(&self, other: &Self) -> Option<Ordering> {
        if self.0 < other.0 {
            Some(Ordering::Less)
        } else if self.0 > other.0 {
            Some(Ordering::Greater)
        } else {
            Some(Ordering::Equal)
        }
    }
}

impl PreparedDemuxSeekRequestId {
    /// The identity with the given number.
    pub fn new(value: u64) -> (r: Self)
        ensures
            r.0 == value,
    {
        PreparedDemuxSeekRequestId(value)
    }

    /// The number of the identity.
    pub fn value(self) -> (r: u64)
        ensures
            r == self.0,
    {
        self.0
    }
}

/// What became of a seek.
#[derive(Debug, Clone, Copy, PartialEq, Eq, Structural)]
pub enum PreparedDemuxSeekOutcome {
    /// The demuxer landed at a position from which decoding is safe.
    Succeeded(DemuxSeekResult),
    /// The seek failed.
    Failed,
    /// The media was given up.
    Cancelled,
    /// A later seek took its place.
    Superseded,
    /// The seek belongs to an earlier generation.
    Stale,
}

/// Receipt of one seek.
#[derive(Debug, Clone, Copy, PartialEq, Eq, Structural)]
pub struct PreparedDemuxSeekReceipt {
    /// The seek.
    pub request_id: PreparedDemuxSeekRequestId,
    /// What became of it.
    pub outcome: PreparedDemuxSeekOutcome,
}

/// Why a seek was not taken on.
#[derive(Debug, Clone, Copy, PartialEq, Eq, Structural)]
pub enum PreparedDemuxSeekEnqueueError {
    /// The queue of receipts is full.
    ReceiptQueueFull,
    /// The identity is not larger than the one before.
    NonMonotonicRequestIdentity,
    /// The worker has stopped.
    WorkerStopped,
    /// The source cannot give receipts.
    CapabilityUnavailable,
}

impl PreparedDemuxSeekEnqueueError {
    /// The text of the error.
    pub open spec fn spec_message(self) -> Seq<char> {
        match self {
            PreparedDemuxSeekEnqueueError::ReceiptQueueFull => {
                "demux seek receipt queue is full"@
            },
            PreparedDemuxSeekEnqueueError::NonMonotonicRequestIdentity => {
                "demux seek request identity is not monotonic"@
            },
            PreparedDemuxSeekEnqueueError::WorkerStopped => "demux seek worker has stopped"@,
            PreparedDemuxSeekEnqueueError::CapabilityUnavailable => {
                "demux seek receipt capability is unavailable"@
            },
        }
    }

    /// The text of the error.
    pub fn message(&self) -> (r: String)
        ensures
            r@ == self.spec_message(),
    {
        match self {
            PreparedDemuxSeekEnqueueError::ReceiptQueueFull => {
                "demux seek receipt queue is full".to_owned()
            },
            PreparedDemuxSeekEnqueueError::NonMonotonicRequestIdentity => {
                "demux seek request identity is not monotonic".to_owned()
            },
            PreparedDemuxSeekEnqueueError::WorkerStopped => {
                "demux seek worker has stopped".to_owned()
            },
            PreparedDemuxSeekEnqueueError::CapabilityUnavailable => {
                "demux seek receipt capability is unavailable".to_owned()
            },
        }
    }
}

/// Which position holds after the demuxer has landed.
#[derive(Debug, Clone, Copy, PartialEq, Eq, Structural)]
pub enum PreparedDemuxSeekLandingPolicy {
    /// The demuxer lands before the target, and what lies before the target is not shown.
    DecodeForwardToTarget,
    /// The demuxer lands after the target, and playback starts there.
    AuthoritativePostTarget,
}

impl Default for PreparedDemuxSeekLandingPolicy {
    fn default() -> (r: Self)
        ensures
            r is DecodeForwardToTarget,
    {
        PreparedDemuxSeekLandingPolicy::DecodeForwardToTarget
    }
}

/// The way to a worker that seeks. What it answers depends on the worker, so nothing is promised
/// of it.
pub trait PreparedDemuxSeekPort {
    /// Hands a seek to the worker without waiting for it.
    fn enqueue_seek(
        &self,
        request_id: PreparedDemuxSeekRequestId,
        request: DemuxSeekRequest,
    ) -> Result<(), PreparedDemuxSeekEnqueueError>;

    /// Takes the next receipt, each once.
    fn poll_seek_receipt(&self) -> Option<PreparedDemuxSeekReceipt>;
}

/// How prepared media seeks. `P` is the way to the worker, which is nobody else's business: the
/// text of a mode leaves it out.
pub enum PreparedDemuxSeekMode<P: PreparedDemuxSeekPort> {
    /// At once.
    Synchronous,
    /// By a worker that gives receipts.
    WorkerReceipted {
        /// Way to the worker.
        port: P,
        /// Which position holds.
        landing_policy: PreparedDemuxSeekLandingPolicy,
    },
}

impl<P: PreparedDemuxSeekPort> PreparedDemuxSeekMode<P> {
    /// The mode as text, without the way to the worker.
    pub open spec fn spec_text(self) -> Seq<char> {
        match self {
            PreparedDemuxSeekMode::Synchronous => "Synchronous"@,
            PreparedDemuxSeekMode::WorkerReceipted { landing_policy, .. } => match landing_policy {
                PreparedDemuxSeekLandingPolicy::DecodeForwardToTarget => {
                    "WorkerReceipted { landing_policy: DecodeForwardToTarget, .. }"@
                },
                PreparedDemuxSeekLandingPolicy::AuthoritativePostTarget => {
                    "WorkerReceipted { landing_policy: AuthoritativePostTarget, .. }"@
                },
            },
        }
    }

    /// The mode as text, without the way to the worker.
    pub fn text(&self) -> (r: &'static str)
        ensures
            r@ == self.spec_text(),
    {
        match self {
            PreparedDemuxSeekMode::Synchronous => "Synchronous",
            PreparedDemuxSeekMode::WorkerReceipted { landing_policy, .. } => match landing_policy {
                PreparedDemuxSeekLandingPolicy::DecodeForwardToTarget => {
                    "WorkerReceipted { landing_policy: DecodeForwardToTarget, .. }"
                },
                PreparedDemuxSeekLandingPolicy::AuthoritativePostTarget => {
                    "WorkerReceipted { landing_policy: AuthoritativePostTarget, .. }"
                },
            },
        }
    }
}

impl<P: PreparedDemuxSeekPort> Default for PreparedDemuxSeekMode<P> {
    fn default() -> (r: Self)
        ensures
            r is Synchronous,
    {
        PreparedDemuxSeekMode::Synchronous
    }
}

/// Identities of seeks are equal, and one comes before another, exactly as their numbers do.
pub proof fn law_prepared_seeks_come_in_the_order_of_their_numbers(
    a: PreparedDemuxSeekRequestId,
    b: PreparedDemuxSeekRequestId,
)
    ensures
        (a == b) <==> (a.0 == b.0),
        (a.partial_cmp_spec(&b) == Some(Ordering::Less)) <==> (a.0 < b.0),
        (a.partial_cmp_spec(&b) == Some(Ordering::Equal)) <==> (a.0 == b.0),
        (a.partial_cmp_spec(&b) == Some(Ordering::Greater)) <==> (a.0 > b.0),
{
}

/// The texts of the errors of a seek that was not taken on.
pub proof fn law_refused_seeks_are_told(error: PreparedDemuxSeekEnqueueError, text: String)
    requires
        call_ensures(PreparedDemuxSeekEnqueueError::message, (&error,), text),
    ensures
        error is ReceiptQueueFull ==> text@ == "demux seek receipt queue is full"@,
        error is NonMonotonicRequestIdentity ==> text@
            == "demux seek request identity is not monotonic"@,
        error is WorkerStopped ==> text@ == "demux seek worker has stopped"@,
        error is CapabilityUnavailable ==> text@ == "demux seek receipt capability is unavailable"@,
{
}

/// The text of a mode depends on its policy alone, not on the way to the worker.
pub proof fn law_text_of_a_mode_leaves_the_way_out<P: PreparedDemuxSeekPort>(
    port: P,
    policy: PreparedDemuxSeekLandingPolicy,
    synchronous: &'static str,
    receipted: &'static str,
)
    requires
        call_ensures(
            PreparedDemuxSeekMode::<P>::text,
            (&PreparedDemuxSeekMode::<P>::Synchronous,),
            synchronous,
        ),
        call_ensures(
            PreparedDemuxSeekMode::<P>::text,
            (&PreparedDemuxSeekMode::WorkerReceipted { port, landing_policy: policy },),
            receipted,
        ),
    ensures
        synchronous@ == "Synchronous"@,
        policy is DecodeForwardToTarget ==> receipted@
            == "WorkerReceipted { landing_policy: DecodeForwardToTarget, .. }"@,
        policy is AuthoritativePostTarget ==> receipted@
            == "WorkerReceipted { landing_policy: AuthoritativePostTarget, .. }"@,
{
}

} // verus!
