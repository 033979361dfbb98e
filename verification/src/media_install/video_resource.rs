//! Which video backends an install request may use.
use super::MediaInstallRequestId;
use crate::text::concat;
use vstd::prelude::*;

verus! {

/// The backends that one request may use.
#[derive(Debug, Clone, PartialEq, Eq)]
pub enum MediaInstallVideoBackendConstraint {
    /// Every backend that can play the media.
    AnyPlayable,
    /// One backend and no other.
    RequireBackend(String),
}

impl MediaInstallVideoBackendConstraint {
    /// Whether a backend may be used.
    pub open spec fn allows(self, backend_id: Seq<char>) -> bool {
        match self {
            MediaInstallVideoBackendConstraint::AnyPlayable => true,
            MediaInstallVideoBackendConstraint::RequireBackend(required) => required@ == backend_id,
        }
    }

    /// Whether a backend may be used.
    pub fn allows_backend_id(&self, backend_id: &str) -> (r: bool)
        ensures
            r == self.allows(backend_id@),
    {
        match self {
            MediaInstallVideoBackendConstraint::AnyPlayable => true,
            MediaInstallVideoBackendConstraint::RequireBackend(required) => {
                let asked: String = backend_id.to_owned();
                *required == asked
            },
        }
    }
}

/// A request for a video backend. `S` is what the owner of backends has to know besides.
#[derive(Debug, Clone, PartialEq, Eq)]
pub struct DetachedVideoBackendRequest<S> {
    /// The install request.
    pub request_id: MediaInstallRequestId,
    /// The backend that the player has chosen.
    pub expected_backend_id: String,
    /// Rest of the choice.
    pub selection: S,
}

/// An answer to a request for a video backend. `B` is what the owner of backends hands out.
#[derive(Debug, Clone, PartialEq, Eq)]
pub enum DetachedVideoBackendReply<B> {
    /// The owner has answered.
    Answered(B),
    /// The backend may not be used.
    Unavailable {
        /// The install request.
        request_id: MediaInstallRequestId,
        /// Why.
        reason: String,
    },
}

/// The way to the owner of video backends. What comes back depends on the owner, so nothing is
/// promised of it.
pub trait DetachedVideoBackendResourcePort: Sized {
    /// What the owner has to know of a choice besides the backend.
    type Selection;

    /// What the owner hands out.
    type Answer;

    /// What became of a backend that was handed out.
    type Status;

    /// Why a candidate is cancelled.
    type CancellationCause;

    /// Why the owner was not reached.
    type PortError;

    /// Asks for a backend.
    fn request_detached_backend(
        &mut self,
        request: DetachedVideoBackendRequest<Self::Selection>,
    ) -> Result<DetachedVideoBackendReply<Self::Answer>, Self::PortError>;

    /// Tells the owner what became of a backend.
    fn publish_candidate_status(&mut self, status: Self::Status) -> Result<(), Self::PortError>;

    /// Tells the owner that a candidate is cancelled.
    fn cancel_candidate(
        &mut self,
        request_id: MediaInstallRequestId,
        cause: Self::CancellationCause,
    ) -> Result<(), Self::PortError>;
}

/// The way of one request to the owner of video backends, with the backends it may use.
#[derive(Debug)]
pub struct MediaInstallVideoResourcePort<R> {
    backend_constraint: MediaInstallVideoBackendConstraint,
    resource_port: R,
}

impl<R> MediaInstallVideoResourcePort<R> {
    /// The backends that may be used.
    pub closed spec fn constraint(self) -> MediaInstallVideoBackendConstraint {
        self.backend_constraint
    }

    /// The way to the owner.
    pub closed spec fn resource(self) -> R {
        self.resource_port
    }

    /// A way with a constraint.
    pub fn new(backend_constraint: MediaInstallVideoBackendConstraint, resource_port: R) -> (r:
        Self)
        ensures
            r.constraint() == backend_constraint,
            r.resource() == resource_port,
    {
        MediaInstallVideoResourcePort { backend_constraint, resource_port }
    }

    /// A way with a constraint, out of a box.
    pub fn from_boxed(
        backend_constraint: MediaInstallVideoBackendConstraint,
        resource_port: Box<R>,
    ) -> (r: Self)
        ensures
            r.constraint() == backend_constraint,
            r.resource() == *resource_port,
    {
        Self::new(backend_constraint, *resource_port)
    }

    /// A way without a constraint.
    pub fn any_playable(resource_port: R) -> (r: Self)
        ensures
            r.constraint() is AnyPlayable,
            r.resource() == resource_port,
    {
        Self::new(MediaInstallVideoBackendConstraint::AnyPlayable, resource_port)
    }

    /// The backends that may be used.
    pub fn backend_constraint(&self) -> (r: &MediaInstallVideoBackendConstraint)
        ensures
            *r == self.constraint(),
    {
        &self.backend_constraint
    }

    /// The way to the owner, to use it.
    pub fn resource_port_mut(&mut self) -> (r: &mut R)
        ensures
            *r == old(self).resource(),
            final(self).resource() == *final(r),
            final(self).constraint() == old(self).constraint(),
    {
        &mut self.resource_port
    }

    /// Why a request for a backend is refused before it reaches the owner, if it is.
    pub fn refusal(&self, expected_backend_id: &str) -> (r: Option<String>)
        ensures
            r is None <==> self.constraint().allows(expected_backend_id@),
            r matches Some(reason) ==> reason@ == "Backend `"@ + expected_backend_id@
                + "` запрещён request-scoped media install policy"@,
    {
        if self.backend_constraint.allows_backend_id(expected_backend_id) {
            None
        } else {
            let head = concat("Backend `", expected_backend_id);
            Some(concat(head.as_str(), "` запрещён request-scoped media install policy"))
        }
    }
}

impl<R: DetachedVideoBackendResourcePort> DetachedVideoBackendResourcePort
    for MediaInstallVideoResourcePort<R> {
    type Selection = R::Selection;

    type Answer = R::Answer;

    type Status = R::Status;

    type CancellationCause = R::CancellationCause;

    type PortError = R::PortError;

    /// Asks the owner for a backend that may be used. Another one is refused, and the owner is
    /// not asked.
    fn request_detached_backend(
        &mut self,
        request: DetachedVideoBackendRequest<R::Selection>,
    ) -> (r: Result<DetachedVideoBackendReply<R::Answer>, R::PortError>)
        ensures
            final(self).constraint() == old(self).constraint(),
            old(self).constraint().allows(request.expected_backend_id@) ==> exists|owner: &mut R|
                *owner == old(self).resource() && *final(owner) == final(self).resource()
                    && #[trigger] call_ensures(
                    <R as DetachedVideoBackendResourcePort>::request_detached_backend,
                    (owner, request),
                    r,
                ),
            !old(self).constraint().allows(request.expected_backend_id@) ==> {
                &&& final(self).resource() == old(self).resource()
                &&& r matches Ok(DetachedVideoBackendReply::Unavailable { request_id, reason })
                &&& request_id == request.request_id
                &&& reason@ == "Backend `"@ + request.expected_backend_id@
                    + "` запрещён request-scoped media install policy"@
            },
    {
        match self.refusal(request.expected_backend_id.as_str()) {
            Some(reason) => Ok(
                DetachedVideoBackendReply::Unavailable { request_id: request.request_id, reason },
            ),
            None => self.resource_port.request_detached_backend(request),
        }
    }

    fn publish_candidate_status(&mut self, status: R::Status) -> (r: Result<(), R::PortError>)
        ensures
            final(self).constraint() == old(self).constraint(),
            exists|owner: &mut R|
                *owner == old(self).resource() && *final(owner) == final(self).resource()
                    && #[trigger] call_ensures(
                    <R as DetachedVideoBackendResourcePort>::publish_candidate_status,
                    (owner, status),
                    r,
                ),
    {
        self.resource_port.publish_candidate_status(status)
    }

    fn cancel_candidate(
        &mut self,
        request_id: MediaInstallRequestId,
        cause: R::CancellationCause,
    ) -> (r: Result<(), R::PortError>)
        ensures
            final(self).constraint() == old(self).constraint(),
            exists|owner: &mut R|
                *owner == old(self).resource() && *final(owner) == final(self).resource()
                    && #[trigger] call_ensures(
                    <R as DetachedVideoBackendResourcePort>::cancel_candidate,
                    (owner, request_id, cause),
                    r,
                ),
    {
        self.resource_port.cancel_candidate(request_id, cause)
    }
}

/// A constraint to one backend allows that one and no other; without a constraint every backend is
/// allowed. A way that was made with the constraint refuses exactly what it does not allow.
pub proof fn law_only_the_required_backend_is_allowed<R>(
    constraint: MediaInstallVideoBackendConstraint,
    owner: R,
    port: MediaInstallVideoResourcePort<R>,
    free_port: MediaInstallVideoResourcePort<R>,
    backend: &str,
    allowed: bool,
    refusal: Option<String>,
    free_refusal: Option<String>,
)
    requires
        call_ensures(
            MediaInstallVideoBackendConstraint::allows_backend_id,
            (&constraint, backend),
            allowed,
        ),
        call_ensures(MediaInstallVideoResourcePort::<R>::new, (constraint, owner), port),
        call_ensures(MediaInstallVideoResourcePort::<R>::any_playable, (owner,), free_port),
        call_ensures(MediaInstallVideoResourcePort::<R>::refusal, (&port, backend), refusal),
        call_ensures(MediaInstallVideoResourcePort::<R>::refusal, (&free_port, backend), free_refusal),
    ensures
        constraint is AnyPlayable ==> allowed,
        constraint matches MediaInstallVideoBackendConstraint::RequireBackend(required) ==> (allowed
            <==> required@ == backend@),
        refusal is None <==> allowed,
        free_refusal is None,
        refusal matches Some(reason) ==> reason@ == "Backend `"@ + backend@
            + "` запрещён request-scoped media install policy"@,
{
}

/// A request for a backend reaches the owner exactly where the backend is allowed; otherwise the
/// owner is not asked, and the answer is for the very request.
pub proof fn law_owner_is_asked_only_for_what_is_allowed<R: DetachedVideoBackendResourcePort>(
    constraint: MediaInstallVideoBackendConstraint,
    owner: R,
    port: MediaInstallVideoResourcePort<R>,
    after: MediaInstallVideoResourcePort<R>,
    request: DetachedVideoBackendRequest<R::Selection>,
    reply: Result<DetachedVideoBackendReply<R::Answer>, R::PortError>,
)
    requires
        call_ensures(MediaInstallVideoResourcePort::<R>::new, (constraint, owner), port),
        exists|way: &mut MediaInstallVideoResourcePort<R>|
            *way == port && *final(way) == after && #[trigger] call_ensures(
                <MediaInstallVideoResourcePort<R> as DetachedVideoBackendResourcePort>::request_detached_backend,
                (way, request),
                reply,
            ),
    ensures
        (constraint is AnyPlayable || constraint->RequireBackend_0@ == request.expected_backend_id@)
            ==> exists|asked: &mut R|
            *asked == owner && *final(asked) == after.resource() && #[trigger] call_ensures(
                <R as DetachedVideoBackendResourcePort>::request_detached_backend,
                (asked, request),
                reply,
            ),
        constraint is RequireBackend && constraint->RequireBackend_0@
            != request.expected_backend_id@ ==> {
            &&& after.resource() == owner
            &&& reply is Ok && reply->Ok_0 is Unavailable && reply->Ok_0->request_id
                == request.request_id
        },
{
}

} // verus!
