//! Playback intent of an install request.
//!
//! A request carries the intent to start playing or paused. Updates of the intent carry a
//! revision; the highest revision wins. Until the request is committed an update changes the
//! staged intent, and the media that is still current follows it. From the commit on an
//! update is pending until the player's owner has applied it to the exact instance that the
//! request installed.
use super::{MediaInstallRequestId, MediaInstanceId};
use crate::text::{decimal, decimal_digits};
use core::cmp::Ordering;
use std::collections::HashMap;
use vstd::std_specs::cmp::PartialOrdSpec;
use vstd::prelude::*;

verus! {

broadcast use vstd::std_specs::hash::group_hash_axioms;

/// What new media does after it is installed.
#[derive(Debug, Clone, Copy, PartialEq, Eq, Structural)]
pub enum PlaybackIntent {
    /// Playback starts.
    StartPlaying,
    /// Media stays paused.
    StartPaused,
}

impl PlaybackIntent {
    /// The intent that an autoplay flag stands for.
    pub fn from_autoplay(autoplay: bool) -> (r: Self)
        ensures
            r == if autoplay {
                PlaybackIntent::StartPlaying
            } else {
                PlaybackIntent::StartPaused
            },
    {
        if autoplay {
            PlaybackIntent::StartPlaying
        } else {
            PlaybackIntent::StartPaused
        }
    }
}

/// Revision of an intent inside one request, never zero.
#[derive(Debug, Clone, Copy, PartialEq, Eq, Structural, Ord, Hash)]
pub struct PlaybackIntentRevision {
    raw: u64,
}

impl View for PlaybackIntentRevision {
    type V = u64;

    closed spec fn view(&self) -> u64 {
        self.raw
    }
}

impl PlaybackIntentRevision {
    #[verifier::type_invariant]
    pub closed spec fn is_non_zero(self) -> bool {
        self.raw != 0
    }

    /// The first revision.
    pub fn initial() -> (r: Self)
        ensures
            r@ == 1,
    {
        PlaybackIntentRevision { raw: 1 }
    }

    /// The revision with the given number.
    pub fn from_non_zero(revision: u64) -> (r: Self)
        requires
            revision != 0,
        ensures
            r@ == revision,
    {
        PlaybackIntentRevision { raw: revision }
    }

    /// The number of the revision.
    pub fn get(self) -> (r: u64)
        ensures
            r == self@,
            r != 0,
    {
        proof {
            use_type_invariant(&self);
        }
        self.raw
    }

    /// The revision as text.
    pub fn display(&self) -> (r: String)
        ensures
            r@ == decimal_digits(self@ as nat),
    {
        decimal(self.raw)
    }
}

impl PartialOrd for PlaybackIntentRevision {
    fn partial_cmp(&self, other: &Self) -> (r: Option<Ordering>) {
        if self.raw < other.raw {
            Some(Ordering::Less)
        } else if self.raw > other.raw {
            Some(Ordering::Greater)
        } else {
            Some(Ordering::Equal)
        }
    }
}

impl vstd::std_specs::cmp::PartialOrdSpecImpl for PlaybackIntentRevision {
    open spec fn obeys_partial_cmp_spec() -> bool {
        true
    }

    open spec fn partial_cmp_spec(&self, other: &Self) -> Option<Ordering> {
        if self@ < other@ {
            Some(Ordering::Less)
        } else if self@ > other@ {
            Some(Ordering::Greater)
        } else {
            Some(Ordering::Equal)
        }
    }
}

/// Revisions are equal, and one comes before another, exactly as their numbers do.
pub proof fn law_revision_is_its_number(a: PlaybackIntentRevision, b: PlaybackIntentRevision)
    ensures
        (a == b) <==> (a@ == b@),
        (a.partial_cmp_spec(&b) == Some(Ordering::Less)) <==> (a@ < b@),
        (a.partial_cmp_spec(&b) == Some(Ordering::Equal)) <==> (a == b),
        (a.partial_cmp_spec(&b) == Some(Ordering::Greater)) <==> (a@ > b@),
{
}

/// No revision comes before the first one.
pub proof fn law_no_revision_precedes_the_initial_one(
    initial: PlaybackIntentRevision,
    revision: PlaybackIntentRevision,
)
    requires
        initial@ == 1,
        revision.is_non_zero(),
    ensures
        initial@ <= revision@,
        initial.partial_cmp_spec(&revision) != Some(Ordering::Greater),
{
}

/// An update of the intent of one request.
#[derive(Debug, Clone, Copy, PartialEq, Eq, Structural)]
pub struct PlaybackIntentUpdate {
    /// Request that the update is for.
    pub request_id: MediaInstallRequestId,
    /// Revision of the update.
    pub revision: PlaybackIntentRevision,
    /// New intent.
    pub intent: PlaybackIntent,
}

/// What became of an update.
#[derive(Debug, Clone, Copy, PartialEq, Eq, Structural)]
pub enum PlaybackIntentUpdateOutcome {
    /// The staged request carries the revision to its commit.
    AppliedToStaged,
    /// The owner applied the revision to the instance that the request installed.
    AppliedToInstalled {
        /// That instance.
        media_instance_id: MediaInstanceId,
    },
    /// A higher revision, or the same revision with another intent, was accepted before.
    StaleRevision {
        /// The highest accepted revision.
        latest_revision: PlaybackIntentRevision,
    },
    /// The request is unknown, was cancelled or was superseded before its commit.
    UnknownOrSupersededRequest,
    /// The request installed media that is not current any more.
    StaleInstance,
}

/// A place for the outcome of one update. It is written once.
#[derive(Debug, Clone, Copy)]
pub struct PlaybackIntentOutcomeSlot {
    /// The outcome, once it is known.
    pub outcome: Option<PlaybackIntentUpdateOutcome>,
}

impl PlaybackIntentOutcomeSlot {
    /// Writes the outcome where none is known yet.
    pub fn publish(&mut self, outcome: PlaybackIntentUpdateOutcome)
        ensures
            final(self).outcome == match old(self).outcome {
                Some(known) => Some(known),
                None => Some(outcome),
            },
    {
        if self.outcome.is_none() {
            self.outcome = Some(outcome);
        }
    }

    /// The outcome, once it is known.
    pub fn get(&self) -> (r: Option<PlaybackIntentUpdateOutcome>)
        ensures
            r == self.outcome,
    {
        self.outcome
    }
}

/// The outcome that a place shows after another one was published.
pub open spec fn published(
    known: Option<PlaybackIntentUpdateOutcome>,
    outcome: PlaybackIntentUpdateOutcome,
) -> Option<PlaybackIntentUpdateOutcome> {
    match known {
        Some(known) => Some(known),
        None => Some(outcome),
    }
}

/// The outcomes of all updates whose receipts are alive.
#[derive(Debug)]
pub struct PlaybackIntentOutcomes {
    slots: HashMap<u64, PlaybackIntentOutcomeSlot>,
    next: u64,
}

impl View for PlaybackIntentOutcomes {
    type V = Map<u64, Option<PlaybackIntentUpdateOutcome>>;

    /// The outcome in each place.
    closed spec fn view(&self) -> Map<u64, Option<PlaybackIntentUpdateOutcome>> {
        self.slots@.map_values(|slot: PlaybackIntentOutcomeSlot| slot.outcome)
    }
}

impl PlaybackIntentOutcomes {
    /// The number of the next place.
    pub closed spec fn spec_next(self) -> u64 {
        self.next
    }

    /// Places are numbered in the order in which they were made.
    pub open spec fn wf(self) -> bool {
        forall|slot: u64| self@.contains_key(slot) ==> slot < self.spec_next()
    }

    /// No place at all.
    pub fn new() -> (r: Self)
        ensures
            r.wf(),
            r@ == Map::<u64, Option<PlaybackIntentUpdateOutcome>>::empty(),
            r.spec_next() == 0,
    {
        let r = PlaybackIntentOutcomes { slots: HashMap::new(), next: 0 };
        assert(r@ =~= Map::<u64, Option<PlaybackIntentUpdateOutcome>>::empty());
        r
    }

    /// Whether no further place can be made.
    pub fn is_exhausted(&self) -> (r: bool)
        ensures
            r == (self.spec_next() == u64::MAX),
    {
        self.next == u64::MAX
    }

    /// Makes a place that shows the given outcome.
    pub fn open(&mut self, outcome: Option<PlaybackIntentUpdateOutcome>) -> (r: u64)
        requires
            old(self).wf(),
            old(self).spec_next() < u64::MAX,
        ensures
            final(self).wf(),
            r == old(self).spec_next(),
            !old(self)@.contains_key(r),
            final(self)@ == old(self)@.insert(r, outcome),
            final(self).spec_next() == r + 1,
    {
        let slot: u64 = self.next;
        let _none = self.slots.insert(slot, PlaybackIntentOutcomeSlot { outcome });
        self.next = slot + 1;
        assert(self@ =~= old(self)@.insert(slot, outcome));
        slot
    }

    /// Writes an outcome into a place where none is known yet.
    pub fn publish(&mut self, slot: u64, outcome: PlaybackIntentUpdateOutcome)
        requires
            old(self).wf(),
        ensures
            final(self).wf(),
            final(self).spec_next() == old(self).spec_next(),
            final(self)@ == if old(self)@.contains_key(slot) {
                old(self)@.insert(slot, published(old(self)@[slot], outcome))
            } else {
                old(self)@
            },
    {
        let known: Option<PlaybackIntentOutcomeSlot> = match self.slots.get(&slot) {
            Some(place) => Some(*place),
            None => None,
        };
        if let Some(place) = known {
            let mut place = place;
            place.publish(outcome);
            let _former = self.slots.insert(slot, place);
            assert(old(self)@.contains_key(slot));
            assert(self@ =~= old(self)@.insert(slot, published(old(self)@[slot], outcome)));
        }
    }

    /// The outcome in a place.
    pub fn get(&self, slot: u64) -> (r: Option<PlaybackIntentUpdateOutcome>)
        ensures
            r == if self@.contains_key(slot) {
                self@[slot]
            } else {
                None
            },
    {
        match self.slots.get(&slot) {
            Some(place) => place.get(),
            None => None,
        }
    }

    /// Gives a place up.
    pub fn close(&mut self, slot: u64)
        requires
            old(self).wf(),
        ensures
            final(self).wf(),
            final(self).spec_next() == old(self).spec_next(),
            final(self)@ == old(self)@.remove(slot),
    {
        let _removed = self.slots.remove(&slot);
        assert(self@ =~= old(self)@.remove(slot));
    }
}

/// Receipt of one update.
#[derive(Debug, Clone, Copy)]
pub struct PlaybackIntentUpdateReceipt {
    /// Request of the update.
    pub request_id: MediaInstallRequestId,
    /// Revision of the update.
    pub revision: PlaybackIntentRevision,
    /// Place of the outcome. Updates that repeat each other share it.
    pub slot: u64,
}

impl PlaybackIntentUpdateReceipt {
    /// The request of the update.
    pub fn request_id(&self) -> (r: MediaInstallRequestId)
        ensures
            r == self.request_id,
    {
        self.request_id
    }

    /// The revision of the update.
    pub fn revision(&self) -> (r: PlaybackIntentRevision)
        ensures
            r == self.revision,
    {
        self.revision
    }

    /// The outcome of the update, once it is known. It stays where it is.
    pub fn try_outcome(&self, control: &PlaybackIntentControl) -> (r: Option<
        PlaybackIntentUpdateOutcome,
    >)
        ensures
            r == control.outcome_of(*self),
    {
        control.outcomes.get(self.slot)
    }
}

/// An intent with its revision.
#[derive(Debug, Clone, Copy, PartialEq, Eq, Structural)]
pub struct AcceptedPlaybackIntent {
    /// Highest accepted revision.
    pub revision: PlaybackIntentRevision,
    /// Intent of that revision.
    pub intent: PlaybackIntent,
}

impl AcceptedPlaybackIntent {
    /// Whether an update comes too late: a higher revision, or the same revision with another
    /// intent, was accepted.
    pub open spec fn outdates(self, update: PlaybackIntentUpdate) -> bool {
        ||| update.revision@ < self.revision@
        ||| update.revision@ == self.revision@ && update.intent != self.intent
    }

    /// What is accepted after an update.
    pub open spec fn updated(self, update: PlaybackIntentUpdate) -> Self {
        if update.revision@ > self.revision@ {
            AcceptedPlaybackIntent { revision: update.revision, intent: update.intent }
        } else {
            self
        }
    }

    /// The outcome of an update for a staged request.
    pub open spec fn staged_outcome(self, update: PlaybackIntentUpdate) -> PlaybackIntentUpdateOutcome {
        if self.outdates(update) {
            PlaybackIntentUpdateOutcome::StaleRevision { latest_revision: self.revision }
        } else {
            PlaybackIntentUpdateOutcome::AppliedToStaged
        }
    }
}

/// The intent of a staged request.
#[derive(Debug, Clone, Copy)]
pub struct StagedPlaybackIntent {
    /// The request.
    pub request_id: MediaInstallRequestId,
    /// Its intent.
    pub accepted: AcceptedPlaybackIntent,
}

/// An update that the owner has not applied yet.
#[derive(Debug, Clone, Copy)]
pub struct PendingInstalledPlaybackIntent {
    /// The update.
    pub update: PlaybackIntentUpdate,
    /// Place of its outcome.
    pub slot: u64,
}

/// The intent of the installed instance.
#[derive(Debug, Clone, Copy)]
pub struct InstalledPlaybackIntent {
    /// Request that installed the instance.
    pub request_id: MediaInstallRequestId,
    /// The instance.
    pub media_instance_id: MediaInstanceId,
    /// Intent that the owner has applied.
    pub applied: AcceptedPlaybackIntent,
    /// The one update that waits for the owner.
    pub pending: Option<PendingInstalledPlaybackIntent>,
}

impl InstalledPlaybackIntent {
    /// The highest accepted intent, whether or not it was applied.
    pub open spec fn highest(self) -> AcceptedPlaybackIntent {
        match self.pending {
            Some(pending) => AcceptedPlaybackIntent {
                revision: pending.update.revision,
                intent: pending.update.intent,
            },
            None => self.applied,
        }
    }

    /// The highest accepted intent, whether or not it was applied.
    pub fn highest_accepted(&self) -> (r: AcceptedPlaybackIntent)
        ensures
            r == self.highest(),
    {
        match self.pending {
            Some(pending) => AcceptedPlaybackIntent {
                revision: pending.update.revision,
                intent: pending.update.intent,
            },
            None => self.applied,
        }
    }
}

/// An intent that the media which is still current takes over from a staged request.
#[derive(Debug, Clone, Copy, PartialEq, Eq, Structural)]
pub struct PendingCurrentPlaybackIntentApply {
    /// The staged request.
    pub request_id: MediaInstallRequestId,
    /// The instance that is still current.
    pub media_instance_id: MediaInstanceId,
    /// The intent.
    pub intent: PlaybackIntent,
}

/// A registered update.
#[derive(Debug, Clone, Copy)]
pub struct SubmittedPlaybackIntentUpdate {
    /// Receipt of the update.
    pub receipt: PlaybackIntentUpdateReceipt,
    /// Whether the owner has something to do.
    pub wake_player_owner: bool,
}

/// A registration that can be undone while the command is on its way.
#[derive(Debug, Clone, Copy)]
pub struct PlaybackIntentStageRegistration {
    /// The new request.
    pub request_id: MediaInstallRequestId,
    /// What was staged before.
    pub previous_staged: Option<StagedPlaybackIntent>,
}

/// An update that the owner has taken to apply it.
#[derive(Debug, Clone, Copy)]
pub struct PendingPlaybackIntentApply {
    /// The update.
    pub update: PlaybackIntentUpdate,
    /// The instance that it is for.
    pub media_instance_id: MediaInstanceId,
    /// Place of its outcome.
    pub slot: u64,
}

/// How the control knows a request.
pub enum PlaybackIntentRoute {
    /// The request is staged.
    Staged,
    /// The request installed the current instance.
    Installed,
    /// The request installed the instance before the current one.
    Replaced,
    /// The request is not known.
    Unknown,
}

/// The intents of the staged and the installed request.
#[derive(Debug)]
pub struct PlaybackIntentControl {
    /// The staged request.
    pub staged: Option<StagedPlaybackIntent>,
    /// The installed request.
    pub installed: Option<InstalledPlaybackIntent>,
    /// The request that installed the instance before the current one.
    pub stale_installed_request_id: Option<MediaInstallRequestId>,
    /// What the current media takes over from the staged request.
    pub pending_current_for_staged: Option<PendingCurrentPlaybackIntentApply>,
    /// The outcomes of all updates.
    pub outcomes: PlaybackIntentOutcomes,
}

impl PlaybackIntentControl {
    /// Places of outcomes are numbered in order, and that of an update which waits for the owner
    /// is there and shows nothing yet.
    pub open spec fn wf(self) -> bool {
        &&& self.outcomes.wf()
        &&& self.installed matches Some(installed) ==> {
            installed.pending matches Some(pending) ==> {
                &&& self.outcomes@.contains_key(pending.slot)
                &&& self.outcomes@[pending.slot] is None
            }
        }
    }

    /// Whether the place of an outcome belongs to the update that waits for the owner.
    pub open spec fn is_awaited(self, slot: u64) -> bool {
        self.installed is Some && self.installed->0.pending is Some
            && self.installed->0.pending->0.slot == slot
    }

    /// The known outcome of an update.
    pub open spec fn outcome_of(self, receipt: PlaybackIntentUpdateReceipt) -> Option<
        PlaybackIntentUpdateOutcome,
    > {
        if self.outcomes@.contains_key(receipt.slot) {
            self.outcomes@[receipt.slot]
        } else {
            None
        }
    }

    /// Whether a request is the staged one.
    pub open spec fn is_staged(self, request_id: MediaInstallRequestId) -> bool {
        self.staged is Some && self.staged->0.request_id == request_id
    }

    /// How a request is known.
    pub open spec fn route(self, request_id: MediaInstallRequestId) -> PlaybackIntentRoute {
        if self.is_staged(request_id) {
            PlaybackIntentRoute::Staged
        } else if self.installed is Some && self.installed->0.request_id == request_id {
            PlaybackIntentRoute::Installed
        } else if self.stale_installed_request_id == Some(request_id) {
            PlaybackIntentRoute::Replaced
        } else {
            PlaybackIntentRoute::Unknown
        }
    }

    /// No outcome that was known in `before` has changed.
    pub open spec fn keeps_outcomes_of(self, before: Self) -> bool {
        forall|slot: u64|
            #![trigger self.outcomes@[slot]]
            #![trigger before.outcomes@[slot]]
            before.outcomes@.contains_key(slot) && before.outcomes@[slot] is Some
                ==> self.outcomes@.contains_key(slot) && self.outcomes@[slot]
                == before.outcomes@[slot]
    }

    /// The next place was made in `before`, and it shows an outcome.
    pub open spec fn opened(
        self,
        before: Self,
        slot: u64,
        outcome: Option<PlaybackIntentUpdateOutcome>,
    ) -> bool {
        &&& !before.outcomes@.contains_key(slot)
        &&& slot == before.outcomes.spec_next()
        &&& self.outcomes@ == before.outcomes@.insert(slot, outcome)
        &&& self.outcomes.spec_next() == before.outcomes.spec_next() + 1
    }

    /// The outcomes after one was published.
    pub open spec fn outcomes_with(self, slot: u64, outcome: PlaybackIntentUpdateOutcome) -> Map<
        u64,
        Option<PlaybackIntentUpdateOutcome>,
    > {
        if self.outcomes@.contains_key(slot) {
            self.outcomes@.insert(slot, published(self.outcomes@[slot], outcome))
        } else {
            self.outcomes@
        }
    }

    /// A control that knows no request.
    pub fn new() -> (r: Self)
        ensures
            r.wf(),
            r.staged is None,
            r.installed is None,
            r.stale_installed_request_id is None,
            r.pending_current_for_staged is None,
            r.outcomes@ == Map::<u64, Option<PlaybackIntentUpdateOutcome>>::empty(),
            r.outcomes.spec_next() == 0,
    {
        PlaybackIntentControl {
            staged: None,
            installed: None,
            stale_installed_request_id: None,
            pending_current_for_staged: None,
            outcomes: PlaybackIntentOutcomes::new(),
        }
    }

    /// Whether a request is the staged one.
    pub fn staged_request_is_latest(&self, request_id: MediaInstallRequestId) -> (r: bool)
        ensures
            r == self.is_staged(request_id),
    {
        match self.staged {
            Some(staged) => staged.request_id == request_id,
            None => false,
        }
    }

    /// The control with a request staged in the place of the former one.
    pub open spec fn begun(
        self,
        request_id: MediaInstallRequestId,
        initial: AcceptedPlaybackIntent,
    ) -> Self {
        PlaybackIntentControl {
            staged: Some(StagedPlaybackIntent { request_id, accepted: initial }),
            ..self
        }
    }

    /// Stages a request before its command is sent.
    pub fn begin_staged_registration(
        &mut self,
        request_id: MediaInstallRequestId,
        initial: AcceptedPlaybackIntent,
    ) -> (r: PlaybackIntentStageRegistration)
        requires
            old(self).wf(),
        ensures
            final(self).wf(),
            *final(self) == old(self).begun(request_id, initial),
            r == (PlaybackIntentStageRegistration {
                request_id,
                previous_staged: old(self).staged,
            }),
    {
        let previous_staged = self.staged;
        self.staged = Some(StagedPlaybackIntent { request_id, accepted: initial });
        PlaybackIntentStageRegistration { request_id, previous_staged }
    }

    /// The control with a registration undone, where its request is still the staged one.
    pub open spec fn rolled_back(self, registration: PlaybackIntentStageRegistration) -> Self {
        if self.is_staged(registration.request_id) {
            PlaybackIntentControl { staged: registration.previous_staged, ..self }
        } else {
            self
        }
    }

    /// Undoes a registration whose command was not sent.
    pub fn rollback_staged_registration(&mut self, registration: PlaybackIntentStageRegistration)
        requires
            old(self).wf(),
        ensures
            final(self).wf(),
            *final(self) == old(self).rolled_back(registration),
    {
        if self.staged_request_is_latest(registration.request_id) {
            self.staged = registration.previous_staged;
        }
    }

    /// The control with an accepted request staged. A higher revision that the same request
    /// has already is kept.
    pub open spec fn registered(
        self,
        request_id: MediaInstallRequestId,
        initial: AcceptedPlaybackIntent,
    ) -> Self {
        if self.is_staged(request_id) && initial.revision@ <= self.staged->0.accepted.revision@ {
            self
        } else {
            self.begun(request_id, initial)
        }
    }

    /// Stages an accepted request.
    pub fn register_staged_request(
        &mut self,
        request_id: MediaInstallRequestId,
        initial: AcceptedPlaybackIntent,
    )
        requires
            old(self).wf(),
        ensures
            final(self).wf(),
            *final(self) == old(self).registered(request_id, initial),
    {
        if let Some(staged) = self.staged {
            if staged.request_id == request_id {
                if initial.revision.get() > staged.accepted.revision.get() {
                    self.staged = Some(StagedPlaybackIntent { request_id, accepted: initial });
                }
                return;
            }
        }
        self.staged = Some(StagedPlaybackIntent { request_id, accepted: initial });
    }

    /// The control without a staged request.
    pub open spec fn forgotten(self, request_id: MediaInstallRequestId) -> Self {
        if self.is_staged(request_id) {
            PlaybackIntentControl { staged: None, ..self }
        } else {
            self
        }
    }

    /// Forgets a staged request that failed or was cancelled.
    pub fn forget_staged_request(&mut self, request_id: MediaInstallRequestId)
        requires
            old(self).wf(),
        ensures
            final(self).wf(),
            *final(self) == old(self).forgotten(request_id),
    {
        if self.staged_request_is_latest(request_id) {
            self.staged = None;
        }
    }

    /// What the commit of the staged request does.
    pub open spec fn committed(
        self,
        after: Self,
        request_id: MediaInstallRequestId,
        media_instance_id: MediaInstanceId,
    ) -> bool {
        &&& after.staged is None
        &&& after.installed == Some(
            InstalledPlaybackIntent {
                request_id,
                media_instance_id,
                applied: self.staged->0.accepted,
                pending: None,
            },
        )
        &&& after.stale_installed_request_id == match self.installed {
            Some(previous) => Some(previous.request_id),
            None => self.stale_installed_request_id,
        }
        &&& after.pending_current_for_staged == match self.pending_current_for_staged {
            Some(pending) => if pending.request_id == request_id {
                None
            } else {
                Some(pending)
            },
            None => None,
        }
        &&& after.outcomes@ == match self.installed {
            Some(previous) => match previous.pending {
                Some(pending) => self.outcomes_with(
                    pending.slot,
                    PlaybackIntentUpdateOutcome::StaleInstance,
                ),
                None => self.outcomes@,
            },
            None => self.outcomes@,
        }
        &&& after.outcomes.spec_next() == self.outcomes.spec_next()
    }

    /// Turns the staged request into the installed one and returns its highest intent, which
    /// `commit_player_ownership` has been called with. An update that waited for the former
    /// instance is told that the instance is stale.
    pub fn commit_staged_request<F: FnOnce(AcceptedPlaybackIntent)>(
        &mut self,
        request_id: MediaInstallRequestId,
        media_instance_id: MediaInstanceId,
        commit_player_ownership: F,
    ) -> (r: AcceptedPlaybackIntent)
        requires
            old(self).wf(),
            old(self).is_staged(request_id),
            call_requires(commit_player_ownership, (old(self).staged->0.accepted,)),
        ensures
            final(self).wf(),
            r == old(self).staged->0.accepted,
            call_ensures(commit_player_ownership, (r,), ()),
            old(self).committed(*final(self), request_id, media_instance_id),
            final(self).keeps_outcomes_of(*old(self)),
            final(self).route(request_id) is Installed,
            old(self).installed matches Some(previous) ==> previous.request_id != request_id
                ==> final(self).route(previous.request_id) is Replaced,
    {
        let accepted = self.staged.unwrap().accepted;
        self.staged = None;
        if let Some(pending) = self.pending_current_for_staged {
            if pending.request_id == request_id {
                self.pending_current_for_staged = None;
            }
        }
        commit_player_ownership(accepted);
        if let Some(previous) = self.installed {
            if let Some(pending) = previous.pending {
                self.outcomes.publish(pending.slot, PlaybackIntentUpdateOutcome::StaleInstance);
            }
            self.stale_installed_request_id = Some(previous.request_id);
        }
        self.installed = Some(
            InstalledPlaybackIntent {
                request_id,
                media_instance_id,
                applied: accepted,
                pending: None,
            },
        );
        accepted
    }

    /// Registers an update. For the staged request it takes effect at once, and the current
    /// media follows; for the installed request it waits for the owner.
    pub fn submit_update(&mut self, update: PlaybackIntentUpdate) -> (r:
        SubmittedPlaybackIntentUpdate)
        requires
            old(self).wf(),
            old(self).outcomes.spec_next() < u64::MAX,
        ensures
            final(self).wf(),
            final(self).keeps_outcomes_of(*old(self)),
            r.receipt.request_id == update.request_id,
            r.receipt.revision == update.revision,
            old(self).submitted(*final(self), update, r),
    {
        if let Some(staged) = self.staged {
            if staged.request_id == update.request_id {
                let mut accepted = staged.accepted;
                let outcome = compare_and_update_accepted(&mut accepted, update);
                let applied = match outcome {
                    PlaybackIntentUpdateOutcome::AppliedToStaged => true,
                    _ => false,
                };
                self.staged = Some(
                    StagedPlaybackIntent { request_id: staged.request_id, accepted },
                );
                if applied {
                    if let Some(installed) = self.installed {
                        self.pending_current_for_staged = Some(
                            PendingCurrentPlaybackIntentApply {
                                request_id: update.request_id,
                                media_instance_id: installed.media_instance_id,
                                intent: update.intent,
                            },
                        );
                    }
                }
                let mut submitted = submitted_immediate(&mut self.outcomes, update, outcome);
                submitted.wake_player_owner = applied;
                return submitted;
            }
        }
        if let Some(installed) = self.installed {
            if installed.request_id == update.request_id {
                let mut installed = installed;
                let submitted = submit_installed_update(
                    &mut self.outcomes,
                    &mut installed,
                    update,
                );
                self.installed = Some(installed);
                return submitted;
            }
        }
        let replaced = match self.stale_installed_request_id {
            Some(request_id) => request_id == update.request_id,
            None => false,
        };
        let outcome = if replaced {
            PlaybackIntentUpdateOutcome::StaleInstance
        } else {
            PlaybackIntentUpdateOutcome::UnknownOrSupersededRequest
        };
        submitted_immediate(&mut self.outcomes, update, outcome)
    }

    /// What an update does.
    pub open spec fn submitted(
        self,
        after: Self,
        update: PlaybackIntentUpdate,
        submitted: SubmittedPlaybackIntentUpdate,
    ) -> bool {
        &&& after.stale_installed_request_id == self.stale_installed_request_id
        &&& match self.route(update.request_id) {
            PlaybackIntentRoute::Staged => self.staged_update(after, update, submitted),
            PlaybackIntentRoute::Installed => {
                &&& after.staged == self.staged
                &&& after.pending_current_for_staged == self.pending_current_for_staged
                &&& self.installed_update(after, update, submitted)
            },
            PlaybackIntentRoute::Replaced => self.answered_at_once(
                after,
                submitted,
                PlaybackIntentUpdateOutcome::StaleInstance,
            ),
            PlaybackIntentRoute::Unknown => self.answered_at_once(
                after,
                submitted,
                PlaybackIntentUpdateOutcome::UnknownOrSupersededRequest,
            ),
        }
    }

    /// What an update of the staged request does.
    pub open spec fn staged_update(
        self,
        after: Self,
        update: PlaybackIntentUpdate,
        submitted: SubmittedPlaybackIntentUpdate,
    ) -> bool {
        let accepted = self.staged->0.accepted;
        let stale = accepted.outdates(update);
        &&& after.staged == Some(
            StagedPlaybackIntent {
                request_id: update.request_id,
                accepted: if stale {
                    accepted
                } else {
                    accepted.updated(update)
                },
            },
        )
        &&& after.installed == self.installed
        &&& after.pending_current_for_staged == if !stale && self.installed is Some {
            Some(
                PendingCurrentPlaybackIntentApply {
                    request_id: update.request_id,
                    media_instance_id: self.installed->0.media_instance_id,
                    intent: update.intent,
                },
            )
        } else {
            self.pending_current_for_staged
        }
        &&& after.opened(self, submitted.receipt.slot, Some(accepted.staged_outcome(update)))
        &&& submitted.wake_player_owner == !stale
    }

    /// What an update of the installed request does.
    pub open spec fn installed_update(
        self,
        after: Self,
        update: PlaybackIntentUpdate,
        submitted: SubmittedPlaybackIntentUpdate,
    ) -> bool {
        let installed = self.installed->0;
        let highest = installed.highest();
        let slot = submitted.receipt.slot;
        if highest.outdates(update) {
            &&& after.installed == self.installed
            &&& after.opened(
                self,
                slot,
                Some(
                    PlaybackIntentUpdateOutcome::StaleRevision {
                        latest_revision: highest.revision,
                    },
                ),
            )
            &&& !submitted.wake_player_owner
        } else if update.revision@ == highest.revision@ {
            &&& after.installed == self.installed
            &&& match installed.pending {
                Some(pending) => {
                    &&& slot == pending.slot
                    &&& after.outcomes@ == self.outcomes@
                    &&& after.outcomes.spec_next() == self.outcomes.spec_next()
                    &&& submitted.wake_player_owner
                },
                None => {
                    &&& after.opened(
                        self,
                        slot,
                        Some(
                            PlaybackIntentUpdateOutcome::AppliedToInstalled {
                                media_instance_id: installed.media_instance_id,
                            },
                        ),
                    )
                    &&& !submitted.wake_player_owner
                },
            }
        } else {
            &&& after.installed == Some(
                InstalledPlaybackIntent {
                    pending: Some(PendingInstalledPlaybackIntent { update, slot }),
                    ..installed
                },
            )
            &&& !self.outcomes@.contains_key(slot)
            &&& slot == self.outcomes.spec_next()
            &&& after.outcomes.spec_next() == self.outcomes.spec_next() + 1
            &&& after.outcomes@ == match installed.pending {
                Some(replaced) => self.outcomes_with(
                    replaced.slot,
                    PlaybackIntentUpdateOutcome::StaleRevision { latest_revision: update.revision },
                ),
                None => self.outcomes@,
            }.insert(slot, None)
            &&& submitted.wake_player_owner
        }
    }

    /// What an update of a request does that is neither staged nor installed.
    pub open spec fn answered_at_once(
        self,
        after: Self,
        submitted: SubmittedPlaybackIntentUpdate,
        outcome: PlaybackIntentUpdateOutcome,
    ) -> bool {
        &&& after.staged == self.staged
        &&& after.installed == self.installed
        &&& after.pending_current_for_staged == self.pending_current_for_staged
        &&& after.opened(self, submitted.receipt.slot, Some(outcome))
        &&& !submitted.wake_player_owner
    }

    /// Takes the update that waits for the owner.
    pub fn take_pending_installed_update(&mut self) -> (r: Option<PendingPlaybackIntentApply>)
        requires
            old(self).wf(),
        ensures
            final(self).wf(),
            match old(self).installed {
                Some(installed) => match installed.pending {
                    Some(pending) => {
                        &&& r == Some(
                            (PendingPlaybackIntentApply {
                                update: pending.update,
                                media_instance_id: installed.media_instance_id,
                                slot: pending.slot,
                            }),
                        )
                        &&& *final(self) == (PlaybackIntentControl {
                            installed: Some(InstalledPlaybackIntent { pending: None, ..installed }),
                            ..*old(self)
                        })
                    },
                    None => r is None && *final(self) == *old(self),
                },
                None => r is None && *final(self) == *old(self),
            },
    {
        if let Some(installed) = self.installed {
            if let Some(pending) = installed.pending {
                self.installed = Some(
                    InstalledPlaybackIntent {
                        request_id: installed.request_id,
                        media_instance_id: installed.media_instance_id,
                        applied: installed.applied,
                        pending: None,
                    },
                );
                return Some(
                    PendingPlaybackIntentApply {
                        update: pending.update,
                        media_instance_id: installed.media_instance_id,
                        slot: pending.slot,
                    },
                );
            }
        }
        None
    }

    /// Takes what the current media takes over from the staged request.
    pub fn take_pending_current_for_staged(&mut self) -> (r: Option<
        PendingCurrentPlaybackIntentApply,
    >)
        requires
            old(self).wf(),
        ensures
            final(self).wf(),
            r == old(self).pending_current_for_staged,
            *final(self) == (PlaybackIntentControl {
                pending_current_for_staged: None,
                ..*old(self)
            }),
    {
        self.pending_current_for_staged.take()
    }

    /// Whether an update that the owner has taken still is for the current instance.
    pub open spec fn is_for_current(self, pending: PendingPlaybackIntentApply) -> bool {
        &&& self.installed is Some
        &&& self.installed->0.request_id == pending.update.request_id
        &&& self.installed->0.media_instance_id == pending.media_instance_id
    }

    /// Records what became of an update that the owner has taken. Only an update that was
    /// applied to the exact current instance counts as applied. An update that was taken is not
    /// the one that waits, so its place is another one.
    pub fn finish_installed_update(
        &mut self,
        pending: PendingPlaybackIntentApply,
        exact_instance_was_applied: bool,
    )
        requires
            old(self).wf(),
        ensures
            !old(self).is_awaited(pending.slot) ==> final(self).wf(),
            final(self).outcomes.wf(),
            final(self).keeps_outcomes_of(*old(self)),
            final(self).staged == old(self).staged,
            final(self).stale_installed_request_id == old(self).stale_installed_request_id,
            final(self).pending_current_for_staged == old(self).pending_current_for_staged,
            final(self).outcomes.spec_next() == old(self).outcomes.spec_next(),
            if old(self).is_for_current(pending) && exact_instance_was_applied {
                &&& final(self).installed == Some(
                    (InstalledPlaybackIntent {
                        applied: if pending.update.revision@
                            >= old(self).installed->0.applied.revision@ {
                            AcceptedPlaybackIntent {
                                revision: pending.update.revision,
                                intent: pending.update.intent,
                            }
                        } else {
                            old(self).installed->0.applied
                        },
                        ..old(self).installed->0
                    }),
                )
                &&& final(self).outcomes@ == old(self).outcomes_with(
                    pending.slot,
                    (PlaybackIntentUpdateOutcome::AppliedToInstalled {
                        media_instance_id: pending.media_instance_id,
                    }),
                )
            } else {
                &&& final(self).installed == old(self).installed
                &&& final(self).outcomes@ == old(self).outcomes_with(
                    pending.slot,
                    PlaybackIntentUpdateOutcome::StaleInstance,
                )
            },
    {
        let current = match self.installed {
            Some(installed) => installed.request_id == pending.update.request_id
                && installed.media_instance_id == pending.media_instance_id,
            None => false,
        };
        if !current || !exact_instance_was_applied {
            self.outcomes.publish(pending.slot, PlaybackIntentUpdateOutcome::StaleInstance);
            return;
        }
        if let Some(installed) = self.installed {
            if pending.update.revision.get() >= installed.applied.revision.get() {
                self.installed = Some(
                    InstalledPlaybackIntent {
                        request_id: installed.request_id,
                        media_instance_id: installed.media_instance_id,
                        applied: AcceptedPlaybackIntent {
                            revision: pending.update.revision,
                            intent: pending.update.intent,
                        },
                        pending: installed.pending,
                    },
                );
            }
        }
        self.outcomes.publish(
            pending.slot,
            PlaybackIntentUpdateOutcome::AppliedToInstalled {
                media_instance_id: pending.media_instance_id,
            },
        );
    }

    /// Gives the place of an outcome up once nobody reads it any more, and says whether it did:
    /// the place of an update that waits for the owner is still needed.
    pub fn close_outcome(&mut self, receipt: PlaybackIntentUpdateReceipt) -> (r: bool)
        requires
            old(self).wf(),
        ensures
            final(self).wf(),
            r == !old(self).is_awaited(receipt.slot),
            final(self).outcomes@ == if r {
                old(self).outcomes@.remove(receipt.slot)
            } else {
                old(self).outcomes@
            },
            final(self).outcomes.spec_next() == old(self).outcomes.spec_next(),
            *final(self) == (PlaybackIntentControl { outcomes: final(self).outcomes, ..*old(self) }),
    {
        let awaited = match self.installed {
            Some(installed) => match installed.pending {
                Some(pending) => pending.slot == receipt.slot,
                None => false,
            },
            None => false,
        };
        if awaited {
            return false;
        }
        self.outcomes.close(receipt.slot);
        true
    }
}

impl Default for PlaybackIntentControl {
    fn default() -> (r: Self)
        ensures
            r.wf(),
            r.staged is None,
            r.installed is None,
            r.stale_installed_request_id is None,
            r.pending_current_for_staged is None,
            r.outcomes@ == Map::<u64, Option<PlaybackIntentUpdateOutcome>>::empty(),
            r.outcomes.spec_next() == 0,
    {
        Self::new()
    }
}

/// Lets an update change an accepted intent.
fn compare_and_update_accepted(
    accepted: &mut AcceptedPlaybackIntent,
    update: PlaybackIntentUpdate,
) -> (r: PlaybackIntentUpdateOutcome)
    ensures
        r == old(accepted).staged_outcome(update),
        *final(accepted) == if old(accepted).outdates(update) {
            *old(accepted)
        } else {
            old(accepted).updated(update)
        },
{
    let new: u64 = update.revision.get();
    let known: u64 = accepted.revision.get();
    if new < known || (new == known && update.intent != accepted.intent) {
        return PlaybackIntentUpdateOutcome::StaleRevision { latest_revision: accepted.revision };
    }
    if new > known {
        *accepted = AcceptedPlaybackIntent { revision: update.revision, intent: update.intent };
    }
    PlaybackIntentUpdateOutcome::AppliedToStaged
}

/// Registers an update of the installed request.
fn submit_installed_update(
    outcomes: &mut PlaybackIntentOutcomes,
    installed: &mut InstalledPlaybackIntent,
    update: PlaybackIntentUpdate,
) -> (r: SubmittedPlaybackIntentUpdate)
    requires
        old(outcomes).wf(),
        old(outcomes).spec_next() < u64::MAX,
        old(installed).pending matches Some(pending) ==> {
            &&& old(outcomes)@.contains_key(pending.slot)
            &&& old(outcomes)@[pending.slot] is None
        },
    ensures
        final(outcomes).wf(),
        final(installed).pending matches Some(pending) ==> {
            &&& final(outcomes)@.contains_key(pending.slot)
            &&& final(outcomes)@[pending.slot] is None
        },
        r.receipt.request_id == update.request_id,
        r.receipt.revision == update.revision,
        ({
            let before = *old(installed);
            let highest = before.highest();
            let slot = r.receipt.slot;
            if highest.outdates(update) {
                &&& *final(installed) == before
                &&& !old(outcomes)@.contains_key(slot)
                &&& slot == old(outcomes).spec_next()
                &&& final(outcomes).spec_next() == old(outcomes).spec_next() + 1
                &&& final(outcomes)@ == old(outcomes)@.insert(
                    slot,
                    Some(
                        (PlaybackIntentUpdateOutcome::StaleRevision {
                            latest_revision: highest.revision,
                        }),
                    ),
                )
                &&& !r.wake_player_owner
            } else if update.revision@ == highest.revision@ {
                &&& *final(installed) == before
                &&& match before.pending {
                    Some(pending) => {
                        &&& slot == pending.slot
                        &&& final(outcomes)@ == old(outcomes)@
                        &&& final(outcomes).spec_next() == old(outcomes).spec_next()
                        &&& r.wake_player_owner
                    },
                    None => {
                        &&& !old(outcomes)@.contains_key(slot)
                        &&& slot == old(outcomes).spec_next()
                        &&& final(outcomes).spec_next() == old(outcomes).spec_next() + 1
                        &&& final(outcomes)@ == old(outcomes)@.insert(
                            slot,
                            Some(
                                (PlaybackIntentUpdateOutcome::AppliedToInstalled {
                                    media_instance_id: before.media_instance_id,
                                }),
                            ),
                        )
                        &&& !r.wake_player_owner
                    },
                }
            } else {
                &&& *final(installed) == (InstalledPlaybackIntent {
                    pending: Some(PendingInstalledPlaybackIntent { update, slot }),
                    ..before
                })
                &&& !old(outcomes)@.contains_key(slot)
                &&& slot == old(outcomes).spec_next()
                &&& final(outcomes).spec_next() == old(outcomes).spec_next() + 1
                &&& final(outcomes)@ == match before.pending {
                    Some(replaced) => if old(outcomes)@.contains_key(replaced.slot) {
                        old(outcomes)@.insert(
                            replaced.slot,
                            published(
                                old(outcomes)@[replaced.slot],
                                (PlaybackIntentUpdateOutcome::StaleRevision {
                                    latest_revision: update.revision,
                                }),
                            ),
                        )
                    } else {
                        old(outcomes)@
                    },
                    None => old(outcomes)@,
                }.insert(slot, None)
                &&& r.wake_player_owner
            }
        }),
{
    let highest = installed.highest_accepted();
    let new: u64 = update.revision.get();
    let known: u64 = highest.revision.get();
    if new < known || (new == known && update.intent != highest.intent) {
        return submitted_immediate(
            outcomes,
            update,
            PlaybackIntentUpdateOutcome::StaleRevision { latest_revision: highest.revision },
        );
    }
    if new == known {
        if let Some(pending) = installed.pending {
            return SubmittedPlaybackIntentUpdate {
                receipt: receipt_for(update, pending.slot),
                wake_player_owner: true,
            };
        }
        return submitted_immediate(
            outcomes,
            update,
            PlaybackIntentUpdateOutcome::AppliedToInstalled {
                media_instance_id: installed.media_instance_id,
            },
        );
    }
    if let Some(replaced) = installed.pending {
        outcomes.publish(
            replaced.slot,
            PlaybackIntentUpdateOutcome::StaleRevision { latest_revision: update.revision },
        );
    }
    let slot: u64 = outcomes.open(None);
    installed.pending = Some(PendingInstalledPlaybackIntent { update, slot });
    SubmittedPlaybackIntentUpdate { receipt: receipt_for(update, slot), wake_player_owner: true }
}

/// A receipt whose outcome is known at once.
fn submitted_immediate(
    outcomes: &mut PlaybackIntentOutcomes,
    update: PlaybackIntentUpdate,
    outcome: PlaybackIntentUpdateOutcome,
) -> (r: SubmittedPlaybackIntentUpdate)
    requires
        old(outcomes).wf(),
        old(outcomes).spec_next() < u64::MAX,
    ensures
        final(outcomes).wf(),
        final(outcomes).spec_next() == old(outcomes).spec_next() + 1,
        !old(outcomes)@.contains_key(r.receipt.slot),
        r.receipt.slot == old(outcomes).spec_next(),
        final(outcomes)@ == old(outcomes)@.insert(r.receipt.slot, Some(outcome)),
        r.receipt.request_id == update.request_id,
        r.receipt.revision == update.revision,
        !r.wake_player_owner,
{
    let slot: u64 = outcomes.open(Some(outcome));
    SubmittedPlaybackIntentUpdate { receipt: receipt_for(update, slot), wake_player_owner: false }
}

/// The receipt of an update.
fn receipt_for(update: PlaybackIntentUpdate, slot: u64) -> (r: PlaybackIntentUpdateReceipt)
    ensures
        r == (PlaybackIntentUpdateReceipt {
            request_id: update.request_id,
            revision: update.revision,
            slot,
        }),
{
    PlaybackIntentUpdateReceipt {
        request_id: update.request_id,
        revision: update.revision,
        slot,
    }
}

/// A registration that is undone at once leaves everything as it was.
pub proof fn law_rollback_restores(
    control: PlaybackIntentControl,
    request_id: MediaInstallRequestId,
    initial: AcceptedPlaybackIntent,
)
    ensures
        control.begun(request_id, initial).rolled_back(
            PlaybackIntentStageRegistration { request_id, previous_staged: control.staged },
        ) == control,
{
}

/// A registration that was superseded by a later one is not undone.
pub proof fn law_superseded_registration_is_not_rolled_back(
    control: PlaybackIntentControl,
    registration: PlaybackIntentStageRegistration,
    later: MediaInstallRequestId,
    initial: AcceptedPlaybackIntent,
)
    requires
        later != registration.request_id,
    ensures
        control.begun(later, initial).rolled_back(registration) == control.begun(later, initial),
{
}

/// The accepted revision never goes back, and an update that is not outdated is what is
/// accepted afterwards.
pub proof fn law_accepted_revision_never_decreases(
    accepted: AcceptedPlaybackIntent,
    update: PlaybackIntentUpdate,
)
    ensures
        accepted.updated(update).revision@ >= accepted.revision@,
        !accepted.outdates(update) ==> accepted.updated(update).revision@ == update.revision@,
        !accepted.outdates(update) ==> accepted.updated(update).intent == update.intent,
{
}

/// An update that is sent again gets the same answer and changes nothing.
pub proof fn law_repeated_update_is_idempotent(
    accepted: AcceptedPlaybackIntent,
    update: PlaybackIntentUpdate,
)
    requires
        !accepted.outdates(update),
    ensures
        !accepted.updated(update).outdates(update),
        accepted.updated(update).updated(update) == accepted.updated(update),
        accepted.updated(update).staged_outcome(update) == accepted.staged_outcome(update),
{
}

/// A commit settles everything that the former instance left open: an update that waited for it
/// is told that the instance is stale, nothing waits any more, the request is not staged any
/// more, and what the current media was to take over from it is dropped. From then on updates of
/// the former request are told that its instance is stale, and the update that the commit
/// carried counts as applied to the new instance.
pub proof fn law_commit_settles_the_former_instance(
    control: PlaybackIntentControl,
    after: PlaybackIntentControl,
    request_id: MediaInstallRequestId,
    media_instance_id: MediaInstanceId,
    receipt: PlaybackIntentUpdateReceipt,
    update: PlaybackIntentUpdate,
    later: PlaybackIntentControl,
    submitted: SubmittedPlaybackIntentUpdate,
)
    requires
        control.wf(),
        control.is_staged(request_id),
        control.committed(after, request_id, media_instance_id),
        after.submitted(later, update, submitted),
    ensures
        control.is_awaited(receipt.slot) ==> after.outcome_of(receipt) == Some(
            PlaybackIntentUpdateOutcome::StaleInstance,
        ),
        after.installed->0.pending is None,
        after.pending_current_for_staged matches Some(pending) ==> pending.request_id != request_id,
        !after.is_staged(request_id),
        control.installed is Some && control.installed->0.request_id != request_id
            && update.request_id == control.installed->0.request_id ==> later.outcome_of(
            submitted.receipt,
        ) == Some(PlaybackIntentUpdateOutcome::StaleInstance),
        update.request_id == request_id && update.revision == control.staged->0.accepted.revision
            && update.intent == control.staged->0.accepted.intent ==> later.outcome_of(
            submitted.receipt,
        ) == Some(PlaybackIntentUpdateOutcome::AppliedToInstalled { media_instance_id }),
{
}

/// Of two updates of the installed request in a row, the second of a higher revision, the first
/// is told of the second, and the second waits for the owner.
pub proof fn law_later_update_replaces_the_one_that_waits(
    control: PlaybackIntentControl,
    first: PlaybackIntentUpdate,
    between: PlaybackIntentControl,
    first_submitted: SubmittedPlaybackIntentUpdate,
    second: PlaybackIntentUpdate,
    after: PlaybackIntentControl,
    second_submitted: SubmittedPlaybackIntentUpdate,
)
    requires
        control.wf(),
        control.route(first.request_id) is Installed,
        first.revision@ > control.installed->0.highest().revision@,
        second.request_id == first.request_id,
        second.revision@ > first.revision@,
        control.submitted(between, first, first_submitted),
        between.submitted(after, second, second_submitted),
    ensures
        after.outcome_of(first_submitted.receipt) == Some(
            PlaybackIntentUpdateOutcome::StaleRevision { latest_revision: second.revision },
        ),
        after.outcome_of(second_submitted.receipt) is None,
        after.is_awaited(second_submitted.receipt.slot),
        after.installed->0.pending->0.update == second,
        second_submitted.wake_player_owner,
{
}

/// Forgetting a staged request does not touch what is installed.
pub proof fn law_forgetting_keeps_the_installed_request(
    control: PlaybackIntentControl,
    request_id: MediaInstallRequestId,
)
    ensures
        control.forgotten(request_id).installed == control.installed,
        !control.forgotten(request_id).is_staged(request_id),
        control.installed is Some && control.installed->0.request_id == request_id
            ==> control.forgotten(request_id).route(request_id) is Installed,
{
}

/// An update of the staged request that is not outdated takes effect at once, whichever intent it
/// carries: the request carries it to its commit, the media that is still current is to take the
/// same intent over, the owner is woken, and the update is told so. An update with a lower
/// revision, or with the same revision and another intent, changes nothing but that it is told of
/// the revision that holds.
pub proof fn law_update_of_the_staged_request(
    before: PlaybackIntentControl,
    after: PlaybackIntentControl,
    update: PlaybackIntentUpdate,
    submitted: SubmittedPlaybackIntentUpdate,
    seen: Option<PlaybackIntentUpdateOutcome>,
)
    requires
        exists|control: &mut PlaybackIntentControl|
            *control == before && *final(control) == after && #[trigger] call_ensures(
                PlaybackIntentControl::submit_update,
                (control, update),
                submitted,
            ),
        call_ensures(
            PlaybackIntentUpdateReceipt::try_outcome,
            (&submitted.receipt, &after),
            seen,
        ),
        before.staged is Some,
        before.staged->0.request_id == update.request_id,
    ensures
        after.installed == before.installed,
        after.stale_installed_request_id == before.stale_installed_request_id,
        after.staged is Some && after.staged->0.request_id == update.request_id,
        ({
            let known = before.staged->0.accepted;
            if update.revision@ > known.revision@ || (update.revision@ == known.revision@
                && update.intent == known.intent) {
                &&& after.staged->0.accepted.revision@ == update.revision@
                &&& after.staged->0.accepted.intent == update.intent
                &&& before.installed is Some ==> {
                    &&& after.pending_current_for_staged is Some
                    &&& after.pending_current_for_staged->0.request_id == update.request_id
                    &&& after.pending_current_for_staged->0.media_instance_id
                        == before.installed->0.media_instance_id
                    &&& after.pending_current_for_staged->0.intent == update.intent
                }
                &&& before.installed is None ==> after.pending_current_for_staged
                    == before.pending_current_for_staged
                &&& submitted.wake_player_owner
                &&& seen == Some(PlaybackIntentUpdateOutcome::AppliedToStaged)
            } else {
                &&& after.staged->0.accepted == known
                &&& after.pending_current_for_staged == before.pending_current_for_staged
                &&& !submitted.wake_player_owner
                &&& seen == Some(
                    PlaybackIntentUpdateOutcome::StaleRevision { latest_revision: known.revision },
                )
            }
        }),
{
}

/// The media that is still current is told to play as well as to pause: of two updates of the
/// staged request with rising revisions, what the owner takes afterwards is the intent of the
/// second, for the installed instance, and nothing is left to take.
pub proof fn law_current_media_follows_the_latest_staged_update(
    before: PlaybackIntentControl,
    between: PlaybackIntentControl,
    after: PlaybackIntentControl,
    first: PlaybackIntentUpdate,
    second: PlaybackIntentUpdate,
    first_submitted: SubmittedPlaybackIntentUpdate,
    second_submitted: SubmittedPlaybackIntentUpdate,
    taken_from: PlaybackIntentControl,
    taken: Option<PendingCurrentPlaybackIntentApply>,
)
    requires
        exists|control: &mut PlaybackIntentControl|
            *control == before && *final(control) == between && #[trigger] call_ensures(
                PlaybackIntentControl::submit_update,
                (control, first),
                first_submitted,
            ),
        exists|control: &mut PlaybackIntentControl|
            *control == between && *final(control) == after && #[trigger] call_ensures(
                PlaybackIntentControl::submit_update,
                (control, second),
                second_submitted,
            ),
        exists|control: &mut PlaybackIntentControl|
            *control == after && *final(control) == taken_from && #[trigger] call_ensures(
                PlaybackIntentControl::take_pending_current_for_staged,
                (control,),
                taken,
            ),
        before.staged is Some,
        before.installed is Some,
        first.request_id == before.staged->0.request_id,
        second.request_id == before.staged->0.request_id,
        before.staged->0.accepted.revision@ < first.revision@ < second.revision@,
    ensures
        taken is Some,
        taken->0.intent == second.intent,
        taken->0.media_instance_id == before.installed->0.media_instance_id,
        taken->0.request_id == second.request_id,
        taken_from.pending_current_for_staged is None,
        taken_from.staged == after.staged && taken_from.installed == after.installed,
{
}

/// An update of the installed request waits for the owner where its revision is higher than every
/// one that was accepted; one that waited before is told of it. A repeated update gets the answer
/// of the first: it waits in the same place, or counts as applied. An outdated one is told of the
/// revision that holds. What is staged is not touched.
pub proof fn law_update_of_the_installed_request(
    before: PlaybackIntentControl,
    after: PlaybackIntentControl,
    update: PlaybackIntentUpdate,
    submitted: SubmittedPlaybackIntentUpdate,
    seen: Option<PlaybackIntentUpdateOutcome>,
)
    requires
        exists|control: &mut PlaybackIntentControl|
            *control == before && *final(control) == after && #[trigger] call_ensures(
                PlaybackIntentControl::submit_update,
                (control, update),
                submitted,
            ),
        call_ensures(
            PlaybackIntentUpdateReceipt::try_outcome,
            (&submitted.receipt, &after),
            seen,
        ),
        before.wf(),
        before.installed is Some,
        before.installed->0.request_id == update.request_id,
        before.staged is None || before.staged->0.request_id != update.request_id,
    ensures
        after.staged == before.staged,
        after.pending_current_for_staged == before.pending_current_for_staged,
        after.installed is Some && after.installed->0.request_id == update.request_id,
        after.installed->0.media_instance_id == before.installed->0.media_instance_id,
        after.installed->0.applied == before.installed->0.applied,
        ({
            let waiting = before.installed->0.pending;
            let known_revision = if waiting is Some {
                waiting->0.update.revision
            } else {
                before.installed->0.applied.revision
            };
            let known_intent = if waiting is Some {
                waiting->0.update.intent
            } else {
                before.installed->0.applied.intent
            };
            if update.revision@ > known_revision@ {
                &&& after.installed->0.pending is Some
                &&& after.installed->0.pending->0.update == update
                &&& after.installed->0.pending->0.slot == submitted.receipt.slot
                &&& seen is None
                &&& submitted.wake_player_owner
                &&& waiting is Some ==> {
                    &&& waiting->0.slot != submitted.receipt.slot
                    &&& after.outcomes@[waiting->0.slot] == Some(
                        PlaybackIntentUpdateOutcome::StaleRevision {
                            latest_revision: update.revision,
                        },
                    )
                }
            } else if update.revision@ == known_revision@ && update.intent == known_intent {
                &&& after.installed == before.installed
                &&& waiting is Some ==> submitted.receipt.slot == waiting->0.slot && seen is None
                    && submitted.wake_player_owner
                &&& waiting is None ==> seen == Some(
                    PlaybackIntentUpdateOutcome::AppliedToInstalled {
                        media_instance_id: before.installed->0.media_instance_id,
                    },
                ) && !submitted.wake_player_owner
            } else {
                &&& after.installed == before.installed
                &&& seen == Some(
                    PlaybackIntentUpdateOutcome::StaleRevision { latest_revision: known_revision },
                )
                &&& !submitted.wake_player_owner
            }
        }),
{
}

/// An update of a request that is neither staged nor installed changes nothing: one of the request
/// before the installed one is told that its instance is stale, and any other that its request is
/// not known.
pub proof fn law_update_of_another_request(
    before: PlaybackIntentControl,
    after: PlaybackIntentControl,
    update: PlaybackIntentUpdate,
    submitted: SubmittedPlaybackIntentUpdate,
    seen: Option<PlaybackIntentUpdateOutcome>,
)
    requires
        exists|control: &mut PlaybackIntentControl|
            *control == before && *final(control) == after && #[trigger] call_ensures(
                PlaybackIntentControl::submit_update,
                (control, update),
                submitted,
            ),
        call_ensures(
            PlaybackIntentUpdateReceipt::try_outcome,
            (&submitted.receipt, &after),
            seen,
        ),
        before.staged is None || before.staged->0.request_id != update.request_id,
        before.installed is None || before.installed->0.request_id != update.request_id,
    ensures
        after.staged == before.staged,
        after.installed == before.installed,
        after.pending_current_for_staged == before.pending_current_for_staged,
        after.stale_installed_request_id == before.stale_installed_request_id,
        !submitted.wake_player_owner,
        before.stale_installed_request_id == Some(update.request_id) ==> seen == Some(
            PlaybackIntentUpdateOutcome::StaleInstance,
        ),
        before.stale_installed_request_id != Some(update.request_id) ==> seen == Some(
            PlaybackIntentUpdateOutcome::UnknownOrSupersededRequest,
        ),
{
}

/// An update never changes what another one was told: its receipt is for it, and every outcome
/// that was known stays.
pub proof fn law_update_keeps_every_known_outcome(
    before: PlaybackIntentControl,
    after: PlaybackIntentControl,
    update: PlaybackIntentUpdate,
    submitted: SubmittedPlaybackIntentUpdate,
    receipt: PlaybackIntentUpdateReceipt,
    known: PlaybackIntentUpdateOutcome,
    seen: Option<PlaybackIntentUpdateOutcome>,
)
    requires
        exists|control: &mut PlaybackIntentControl|
            *control == before && *final(control) == after && #[trigger] call_ensures(
                PlaybackIntentControl::submit_update,
                (control, update),
                submitted,
            ),
        call_ensures(
            PlaybackIntentUpdateReceipt::try_outcome,
            (&receipt, &before),
            Some(known),
        ),
        call_ensures(PlaybackIntentUpdateReceipt::try_outcome, (&receipt, &after), seen),
    ensures
        seen == Some(known),
        submitted.receipt.request_id == update.request_id,
        submitted.receipt.revision == update.revision,
{
}

/// A request that is staged takes the place of the former one and touches nothing else. Undone, the
/// former one is back, unless a third request was staged meanwhile.
pub proof fn law_staging_replaces_and_rollback_restores(
    before: PlaybackIntentControl,
    begun: PlaybackIntentControl,
    undone: PlaybackIntentControl,
    request_id: MediaInstallRequestId,
    initial: AcceptedPlaybackIntent,
    registration: PlaybackIntentStageRegistration,
    later: PlaybackIntentControl,
    later_undone: PlaybackIntentControl,
)
    requires
        exists|control: &mut PlaybackIntentControl|
            *control == before && *final(control) == begun && #[trigger] call_ensures(
                PlaybackIntentControl::begin_staged_registration,
                (control, request_id, initial),
                registration,
            ),
        exists|control: &mut PlaybackIntentControl|
            *control == begun && *final(control) == undone && #[trigger] call_ensures(
                PlaybackIntentControl::rollback_staged_registration,
                (control, registration),
                (),
            ),
        exists|control: &mut PlaybackIntentControl|
            *control == later && *final(control) == later_undone && #[trigger] call_ensures(
                PlaybackIntentControl::rollback_staged_registration,
                (control, registration),
                (),
            ),
        later.staged is None || later.staged->0.request_id != request_id,
    ensures
        begun.staged is Some,
        begun.staged->0.request_id == request_id,
        begun.staged->0.accepted == initial,
        begun.installed == before.installed,
        begun.pending_current_for_staged == before.pending_current_for_staged,
        undone == before,
        later_undone == later,
{
}

/// A request that is accepted is staged with the intent that it came with, unless the same request
/// is staged already with a revision that is not lower: then that one is kept. Only the staged
/// request is forgotten, and nothing else changes.
pub proof fn law_accepted_request_is_staged_until_it_is_forgotten(
    before: PlaybackIntentControl,
    after: PlaybackIntentControl,
    request_id: MediaInstallRequestId,
    initial: AcceptedPlaybackIntent,
    other: MediaInstallRequestId,
    forgotten: PlaybackIntentControl,
    latest: bool,
)
    requires
        exists|control: &mut PlaybackIntentControl|
            *control == before && *final(control) == after && #[trigger] call_ensures(
                PlaybackIntentControl::register_staged_request,
                (control, request_id, initial),
                (),
            ),
        exists|control: &mut PlaybackIntentControl|
            *control == after && *final(control) == forgotten && #[trigger] call_ensures(
                PlaybackIntentControl::forget_staged_request,
                (control, other),
                (),
            ),
        call_ensures(
            PlaybackIntentControl::staged_request_is_latest,
            (&after, other),
            latest,
        ),
    ensures
        after.staged is Some && after.staged->0.request_id == request_id,
        after.installed == before.installed,
        after.pending_current_for_staged == before.pending_current_for_staged,
        before.staged is None || before.staged->0.request_id != request_id || initial.revision@
            > before.staged->0.accepted.revision@ ==> after.staged->0.accepted == initial,
        before.staged is Some && before.staged->0.request_id == request_id && initial.revision@
            <= before.staged->0.accepted.revision@ ==> after.staged->0.accepted
            == before.staged->0.accepted,
        latest <==> other == request_id,
        other == request_id ==> forgotten.staged is None,
        other != request_id ==> forgotten.staged == after.staged,
        forgotten.installed == after.installed,
        forgotten.pending_current_for_staged == after.pending_current_for_staged,
{
}

/// A commit installs exactly what was staged: the request with its highest intent, under the given
/// instance, with nothing that waits. The request that was installed before is remembered as
/// replaced, an update that waited for it is told that its instance is stale, and what the former
/// media was to take over from the committed request is dropped.
pub proof fn law_commit_installs_what_was_staged<F: FnOnce(AcceptedPlaybackIntent)>(
    before: PlaybackIntentControl,
    after: PlaybackIntentControl,
    request_id: MediaInstallRequestId,
    media_instance_id: MediaInstanceId,
    commit_player_ownership: F,
    committed: AcceptedPlaybackIntent,
)
    requires
        before.wf(),
        before.staged is Some && before.staged->0.request_id == request_id,
        exists|control: &mut PlaybackIntentControl|
            *control == before && *final(control) == after && #[trigger] call_ensures(
                PlaybackIntentControl::commit_staged_request::<F>,
                (control, request_id, media_instance_id, commit_player_ownership),
                committed,
            ),
    ensures
        committed == before.staged->0.accepted,
        call_ensures(commit_player_ownership, (before.staged->0.accepted,), ()),
        after.staged is None,
        after.installed is Some,
        after.installed->0.request_id == request_id,
        after.installed->0.media_instance_id == media_instance_id,
        after.installed->0.applied == before.staged->0.accepted,
        after.installed->0.pending is None,
        before.installed is Some ==> after.stale_installed_request_id == Some(
            before.installed->0.request_id,
        ),
        before.installed is None ==> after.stale_installed_request_id
            == before.stale_installed_request_id,
        before.installed is Some && before.installed->0.pending is Some
            ==> after.outcomes@[before.installed->0.pending->0.slot] == Some(
            PlaybackIntentUpdateOutcome::StaleInstance,
        ),
        after.pending_current_for_staged is Some ==> after.pending_current_for_staged
            == before.pending_current_for_staged
            && after.pending_current_for_staged->0.request_id != request_id,
        before.pending_current_for_staged is Some
            && before.pending_current_for_staged->0.request_id != request_id
            ==> after.pending_current_for_staged == before.pending_current_for_staged,
{
}

/// The owner takes the update that waits, once, and reports on it. It counts as applied exactly
/// where the owner applied it and the instance that it was for is still the installed one of its
/// request; then its intent is the applied one. Otherwise it is told that its instance is stale,
/// and nothing changes.
pub proof fn law_taken_update_is_applied_or_stale(
    before: PlaybackIntentControl,
    taken_from: PlaybackIntentControl,
    taken: Option<PendingPlaybackIntentApply>,
    later: PlaybackIntentControl,
    pending: PendingPlaybackIntentApply,
    applied: bool,
    finished: PlaybackIntentControl,
)
    requires
        before.wf(),
        exists|control: &mut PlaybackIntentControl|
            *control == before && *final(control) == taken_from && #[trigger] call_ensures(
                PlaybackIntentControl::take_pending_installed_update,
                (control,),
                taken,
            ),
        later.outcomes@.contains_key(pending.slot) && later.outcomes@[pending.slot] is None,
        exists|control: &mut PlaybackIntentControl|
            *control == later && *final(control) == finished && #[trigger] call_ensures(
                PlaybackIntentControl::finish_installed_update,
                (control, pending, applied),
                (),
            ),
    ensures
        taken is Some <==> before.installed is Some && before.installed->0.pending is Some,
        taken is Some ==> {
            &&& taken->0.update == before.installed->0.pending->0.update
            &&& taken->0.slot == before.installed->0.pending->0.slot
            &&& taken->0.media_instance_id == before.installed->0.media_instance_id
            &&& taken_from.installed->0.pending is None
            &&& taken_from.installed->0.applied == before.installed->0.applied
        },
        taken is None ==> taken_from == before,
        finished.staged == later.staged,
        finished.pending_current_for_staged == later.pending_current_for_staged,
        applied && later.installed is Some && later.installed->0.request_id
            == pending.update.request_id && later.installed->0.media_instance_id
            == pending.media_instance_id ==> {
            &&& finished.outcomes@[pending.slot] == Some(
                PlaybackIntentUpdateOutcome::AppliedToInstalled {
                    media_instance_id: pending.media_instance_id,
                },
            )
            &&& finished.installed is Some
            &&& finished.installed->0.pending == later.installed->0.pending
            &&& pending.update.revision@ >= later.installed->0.applied.revision@ ==> {
                &&& finished.installed->0.applied.revision == pending.update.revision
                &&& finished.installed->0.applied.intent == pending.update.intent
            }
            &&& pending.update.revision@ < later.installed->0.applied.revision@
                ==> finished.installed->0.applied == later.installed->0.applied
        },
        !applied || later.installed is None || later.installed->0.request_id
            != pending.update.request_id || later.installed->0.media_instance_id
            != pending.media_instance_id ==> {
            &&& finished.outcomes@[pending.slot] == Some(PlaybackIntentUpdateOutcome::StaleInstance)
            &&& finished.installed == later.installed
        },
{
}

/// Staging, undoing and forgetting are about the staged request alone: the request that was
/// replaced, the installed one and every outcome stay. So they do where the owner takes what waits.
pub proof fn law_staging_leaves_what_is_installed_alone(
    before: PlaybackIntentControl,
    begun: PlaybackIntentControl,
    registered: PlaybackIntentControl,
    forgotten: PlaybackIntentControl,
    taken_from: PlaybackIntentControl,
    current_taken_from: PlaybackIntentControl,
    request_id: MediaInstallRequestId,
    initial: AcceptedPlaybackIntent,
    registration: PlaybackIntentStageRegistration,
    taken: Option<PendingPlaybackIntentApply>,
    current_taken: Option<PendingCurrentPlaybackIntentApply>,
)
    requires
        exists|control: &mut PlaybackIntentControl|
            *control == before && *final(control) == begun && #[trigger] call_ensures(
                PlaybackIntentControl::begin_staged_registration,
                (control, request_id, initial),
                registration,
            ),
        exists|control: &mut PlaybackIntentControl|
            *control == before && *final(control) == registered && #[trigger] call_ensures(
                PlaybackIntentControl::register_staged_request,
                (control, request_id, initial),
                (),
            ),
        exists|control: &mut PlaybackIntentControl|
            *control == before && *final(control) == forgotten && #[trigger] call_ensures(
                PlaybackIntentControl::forget_staged_request,
                (control, request_id),
                (),
            ),
        exists|control: &mut PlaybackIntentControl|
            *control == before && *final(control) == taken_from && #[trigger] call_ensures(
                PlaybackIntentControl::take_pending_installed_update,
                (control,),
                taken,
            ),
        exists|control: &mut PlaybackIntentControl|
            *control == before && *final(control) == current_taken_from && #[trigger] call_ensures(
                PlaybackIntentControl::take_pending_current_for_staged,
                (control,),
                current_taken,
            ),
    ensures
        registration.request_id == request_id,
        registration.previous_staged == before.staged,
        begun.stale_installed_request_id == before.stale_installed_request_id,
        begun.outcomes == before.outcomes,
        registered.stale_installed_request_id == before.stale_installed_request_id,
        registered.outcomes == before.outcomes,
        forgotten.stale_installed_request_id == before.stale_installed_request_id,
        forgotten.outcomes == before.outcomes,
        taken_from.staged == before.staged,
        taken_from.stale_installed_request_id == before.stale_installed_request_id,
        taken_from.pending_current_for_staged == before.pending_current_for_staged,
        taken_from.outcomes == before.outcomes,
        taken is Some ==> taken_from.installed->0.request_id == before.installed->0.request_id
            && taken_from.installed->0.media_instance_id == before.installed->0.media_instance_id,
        current_taken == before.pending_current_for_staged,
        current_taken_from.outcomes == before.outcomes,
        current_taken_from.stale_installed_request_id == before.stale_installed_request_id,
{
}

/// A report on an update that was taken changes no identity: the installed request and its instance
/// stay, and so does the request that was replaced. Every outcome that was known stays too.
pub proof fn law_report_changes_no_identity(
    before: PlaybackIntentControl,
    after: PlaybackIntentControl,
    pending: PendingPlaybackIntentApply,
    applied: bool,
    other: u64,
)
    requires
        exists|control: &mut PlaybackIntentControl|
            *control == before && *final(control) == after && #[trigger] call_ensures(
                PlaybackIntentControl::finish_installed_update,
                (control, pending, applied),
                (),
            ),
    ensures
        after.stale_installed_request_id == before.stale_installed_request_id,
        after.installed is Some <==> before.installed is Some,
        before.installed is Some ==> after.installed->0.request_id
            == before.installed->0.request_id && after.installed->0.media_instance_id
            == before.installed->0.media_instance_id && after.installed->0.pending
            == before.installed->0.pending,
        other != pending.slot ==> after.outcomes@.contains_key(other)
            == before.outcomes@.contains_key(other) && (before.outcomes@.contains_key(other)
            ==> after.outcomes@[other] == before.outcomes@[other]),
        before.outcomes@.contains_key(pending.slot) && before.outcomes@[pending.slot] is Some
            ==> after.outcomes@[pending.slot] == before.outcomes@[pending.slot],
{
}

/// Of two outcomes that are published in one place, the first holds; a place that was given up shows
/// none, and a new place is another one.
pub proof fn law_first_outcome_in_a_place_holds(
    before: PlaybackIntentOutcomes,
    opened: PlaybackIntentOutcomes,
    one: PlaybackIntentOutcomes,
    two: PlaybackIntentOutcomes,
    reopened: PlaybackIntentOutcomes,
    closed: PlaybackIntentOutcomes,
    slot: u64,
    other: u64,
    first: PlaybackIntentUpdateOutcome,
    second: PlaybackIntentUpdateOutcome,
    seen_at_first: Option<PlaybackIntentUpdateOutcome>,
    seen: Option<PlaybackIntentUpdateOutcome>,
    seen_closed: Option<PlaybackIntentUpdateOutcome>,
)
    requires
        exists|outcomes: &mut PlaybackIntentOutcomes|
            *outcomes == before && *final(outcomes) == opened && #[trigger] call_ensures(
                PlaybackIntentOutcomes::open,
                (outcomes, None),
                slot,
            ),
        call_ensures(PlaybackIntentOutcomes::get, (&opened, slot), seen_at_first),
        exists|outcomes: &mut PlaybackIntentOutcomes|
            *outcomes == opened && *final(outcomes) == one && #[trigger] call_ensures(
                PlaybackIntentOutcomes::publish,
                (outcomes, slot, first),
                (),
            ),
        exists|outcomes: &mut PlaybackIntentOutcomes|
            *outcomes == one && *final(outcomes) == two && #[trigger] call_ensures(
                PlaybackIntentOutcomes::publish,
                (outcomes, slot, second),
                (),
            ),
        call_ensures(PlaybackIntentOutcomes::get, (&two, slot), seen),
        exists|outcomes: &mut PlaybackIntentOutcomes|
            *outcomes == two && *final(outcomes) == reopened && #[trigger] call_ensures(
                PlaybackIntentOutcomes::open,
                (outcomes, None),
                other,
            ),
        exists|outcomes: &mut PlaybackIntentOutcomes|
            *outcomes == reopened && *final(outcomes) == closed && #[trigger] call_ensures(
                PlaybackIntentOutcomes::close,
                (outcomes, slot),
                (),
            ),
        call_ensures(PlaybackIntentOutcomes::get, (&closed, slot), seen_closed),
    ensures
        seen_at_first is None,
        seen == Some(first),
        seen_closed is None,
        other != slot,
{
}

/// The highest intent that was accepted is the one that waits, or else the applied one.
pub proof fn law_waiting_intent_is_the_highest(
    installed: InstalledPlaybackIntent,
    highest: AcceptedPlaybackIntent,
)
    requires
        call_ensures(InstalledPlaybackIntent::highest_accepted, (&installed,), highest),
    ensures
        installed.pending is None ==> highest == installed.applied,
        installed.pending is Some ==> highest.revision == installed.pending->0.update.revision
            && highest.intent == installed.pending->0.update.intent,
{
}

/// The place of an outcome is given up exactly where no update waits for the owner in it.
pub proof fn law_place_of_a_waiting_update_is_not_given_up(
    before: PlaybackIntentControl,
    after: PlaybackIntentControl,
    receipt: PlaybackIntentUpdateReceipt,
    given_up: bool,
    seen: Option<PlaybackIntentUpdateOutcome>,
)
    requires
        exists|control: &mut PlaybackIntentControl|
            *control == before && *final(control) == after && #[trigger] call_ensures(
                PlaybackIntentControl::close_outcome,
                (control, receipt),
                given_up,
            ),
        call_ensures(PlaybackIntentUpdateReceipt::try_outcome, (&receipt, &after), seen),
    ensures
        given_up <==> before.installed is None || before.installed->0.pending is None
            || before.installed->0.pending->0.slot != receipt.slot,
        given_up ==> seen is None,
        !given_up ==> after.outcomes@ == before.outcomes@,
        after.staged == before.staged && after.installed == before.installed,
{
}

} // verus!
