//! Textures that the renderer holds, and what is owed once it lets go of them.
//!
//! A texture may go back to its decoder only when no lease of the renderer is left. A release
//! that is asked for too early is deferred until the last lease is gone. A texture that the
//! renderer has used goes back through the renderer's own provider.
use super::lease_table::{LeaseTable, RenderLeaseKey};
use crate::media::FrameResourceHandle;
use std::collections::HashMap;
use vstd::prelude::*;

verus! {

broadcast use vstd::std_specs::hash::group_hash_axioms;

/// What the end of one lease brings about.
#[derive(Debug, Clone, Copy, PartialEq, Eq, Structural)]
pub enum RenderLeaseReleaseEffect {
    /// The lease is not known.
    UnknownLease,
    /// Another lease of the texture is left.
    LeaseStillActive,
    /// It was the last lease, and no release of the texture is deferred.
    ReleasedWithoutDeferredTexture,
    /// It was the last lease, and the deferred release of the texture is due.
    DeferredTextureReady,
}

/// What becomes of the wish to release a texture.
#[derive(Debug, Clone)]
pub enum VideoTextureReleaseEffect<P> {
    /// The renderer holds the texture; the release is deferred.
    DeferredUntilRenderLeaseDrop,
    /// The renderer has used the texture and let go of it; its provider releases it.
    ReleaseViaRenderProvider(P),
    /// The renderer has not used the texture; it goes back to the decoder at once.
    ReleaseNow,
}

/// What became of a decoder that was replaced.
#[derive(Debug, Clone, Copy, PartialEq, Eq, Structural)]
pub enum RetiredVideoDecoderOutcome {
    /// There was none.
    NoDecoder,
    /// The renderer holds none of its textures; it is gone.
    DroppedIdle,
    /// It stays until the renderer has let go of its textures.
    Retained,
    /// Its generation has a retired decoder already; it is gone.
    DuplicateGeneration,
}

/// The contents of a [`RenderLeaseLedger`].
pub struct RenderLeaseLedgerView<P, D> {
    /// Generation of render resources.
    pub generation: u64,
    /// Number of leases of each texture that is leased.
    pub leases: Map<RenderLeaseKey, usize>,
    /// Textures whose release is deferred.
    pub deferred: Map<RenderLeaseKey, ()>,
    /// Providers of textures that the renderer has used and let go of.
    pub providers: Map<RenderLeaseKey, P>,
    /// Decoders that were replaced, by the generation in which they were.
    pub retired: Map<u64, D>,
}

impl<P, D> RenderLeaseLedgerView<P, D> {
    /// A leased texture has a lease, a release is deferred only for a leased texture, and
    /// providers are kept only for the current generation.
    pub open spec fn wf(self) -> bool {
        &&& forall|key: RenderLeaseKey| #[trigger]
            self.leases.contains_key(key) ==> self.leases[key] >= 1
        &&& forall|key: RenderLeaseKey| #[trigger]
            self.deferred.contains_key(key) ==> self.leases.contains_key(key)
        &&& forall|key: RenderLeaseKey| #[trigger]
            self.providers.contains_key(key) ==> key.generation == self.generation
    }

    /// Whether the renderer holds a texture of the generation.
    pub open spec fn has_leases(self, generation: u64) -> bool {
        exists|key: RenderLeaseKey| #[trigger]
            self.leases.contains_key(key) && key.generation == generation
    }

    /// The number of leases of a texture.
    pub open spec fn lease_count(self, key: RenderLeaseKey) -> usize {
        if self.leases.contains_key(key) {
            self.leases[key]
        } else {
            0
        }
    }

    /// The ledger with one more lease of a texture.
    pub open spec fn registered(self, key: RenderLeaseKey) -> Self {
        let count = self.lease_count(key);
        RenderLeaseLedgerView {
            leases: self.leases.insert(
                key,
                if count == usize::MAX {
                    count
                } else {
                    (count + 1) as usize
                },
            ),
            ..self
        }
    }

    /// What the end of one lease brings about.
    pub open spec fn release_effect(self, key: RenderLeaseKey) -> RenderLeaseReleaseEffect {
        if !self.leases.contains_key(key) {
            RenderLeaseReleaseEffect::UnknownLease
        } else if self.leases[key] > 1 {
            RenderLeaseReleaseEffect::LeaseStillActive
        } else if self.deferred.contains_key(key) {
            RenderLeaseReleaseEffect::DeferredTextureReady
        } else {
            RenderLeaseReleaseEffect::ReleasedWithoutDeferredTexture
        }
    }

    /// The ledger after the end of one lease.
    pub open spec fn released(self, key: RenderLeaseKey) -> Self {
        match self.release_effect(key) {
            RenderLeaseReleaseEffect::UnknownLease => self,
            RenderLeaseReleaseEffect::LeaseStillActive => RenderLeaseLedgerView {
                leases: self.leases.insert(key, (self.leases[key] - 1) as usize),
                ..self
            },
            RenderLeaseReleaseEffect::ReleasedWithoutDeferredTexture => RenderLeaseLedgerView {
                leases: self.leases.remove(key),
                ..self
            },
            RenderLeaseReleaseEffect::DeferredTextureReady => RenderLeaseLedgerView {
                leases: self.leases.remove(key),
                deferred: self.deferred.remove(key),
                providers: self.providers.remove(key),
                ..self
            },
        }
    }

    /// The ledger after the wish to release a texture of the current generation.
    pub open spec fn release_requested(self, handle: FrameResourceHandle) -> Self {
        let key = RenderLeaseKey { generation: self.generation, handle: handle.0 };
        if self.leases.contains_key(key) {
            RenderLeaseLedgerView { deferred: self.deferred.insert(key, ()), ..self }
        } else {
            RenderLeaseLedgerView { providers: self.providers.remove(key), ..self }
        }
    }

    /// The ledger without a retired decoder whose textures the renderer does not hold.
    pub open spec fn retired_released(self, generation: u64) -> Self {
        if self.has_leases(generation) {
            self
        } else {
            RenderLeaseLedgerView { retired: self.retired.remove(generation), ..self }
        }
    }
}

/// The account of the textures that the renderer holds.
#[derive(Debug)]
pub struct RenderLeaseLedger<P, D> {
    generation: u64,
    leases: LeaseTable<usize>,
    deferred: LeaseTable<()>,
    providers: LeaseTable<P>,
    retired: HashMap<u64, D>,
}

impl<P, D> View for RenderLeaseLedger<P, D> {
    type V = RenderLeaseLedgerView<P, D>;

    closed spec fn view(&self) -> RenderLeaseLedgerView<P, D> {
        RenderLeaseLedgerView {
            generation: self.generation,
            leases: self.leases@,
            deferred: self.deferred@,
            providers: self.providers@,
            retired: self.retired@,
        }
    }
}

/// A ledger that is well formed holds well-formed contents.
pub broadcast proof fn lemma_ledger_wf<P, D>(ledger: RenderLeaseLedger<P, D>)
    requires
        #[trigger] ledger.wf(),
    ensures
        ledger@.wf(),
{
}

impl<P, D> RenderLeaseLedger<P, D> {
    /// The contents and the tables are well formed.
    pub closed spec fn wf(self) -> bool {
        &&& self@.wf()
        &&& self.leases.wf()
        &&& self.deferred.wf()
        &&& self.providers.wf()
    }

    /// An empty account of the first generation.
    pub fn new() -> (r: Self)
        ensures
            r.wf(),
            r@ == (RenderLeaseLedgerView::<P, D> {
                generation: 0,
                leases: Map::empty(),
                deferred: Map::empty(),
                providers: Map::empty(),
                retired: Map::empty(),
            }),
    {
        RenderLeaseLedger {
            generation: 0,
            leases: LeaseTable::new(),
            deferred: LeaseTable::new(),
            providers: LeaseTable::new(),
            retired: HashMap::new(),
        }
    }

    /// The generation of render resources.
    pub fn render_generation(&self) -> (r: u64)
        ensures
            r == self@.generation,
    {
        self.generation
    }

    /// Begins the next generation of render resources. Providers of the former one are
    /// forgotten; its leases stay on the account.
    pub fn advance_render_generation(&mut self)
        requires
            old(self).wf(),
        ensures
            final(self).wf(),
            final(self)@ == (RenderLeaseLedgerView {
                generation: if old(self)@.generation == u64::MAX {
                    0
                } else {
                    (old(self)@.generation + 1) as u64
                },
                providers: Map::empty(),
                ..old(self)@
            }),
    {
        self.providers.clear();
        self.generation = self.generation.wrapping_add(1);
    }

    /// Forgets the providers of textures that the renderer has used.
    pub fn forget_release_providers(&mut self)
        requires
            old(self).wf(),
        ensures
            final(self).wf(),
            final(self)@ == (RenderLeaseLedgerView { providers: Map::empty(), ..old(self)@ }),
    {
        self.providers.clear();
    }

    /// Adds a lease of a texture of the current generation. A texture of another generation
    /// gets none.
    pub fn try_register_render_lease(
        &mut self,
        render_generation: u64,
        resource_handle: FrameResourceHandle,
    ) -> (r: bool)
        requires
            old(self).wf(),
        ensures
            final(self).wf(),
            r == (render_generation == old(self)@.generation),
            final(self)@ == if r {
                old(self)@.registered(
                    RenderLeaseKey { generation: render_generation, handle: resource_handle.0 },
                )
            } else {
                old(self)@
            },
    {
        if render_generation != self.generation {
            return false;
        }
        let key = RenderLeaseKey { generation: render_generation, handle: resource_handle.0 };
        let count: usize = match self.leases.get(key) {
            Some(count) => *count,
            None => 0,
        };
        self.leases.insert(key, count.saturating_add(1));
        assert(old(self)@.wf() && self@ == old(self)@.registered(key));
        true
    }

    /// Ends one lease of a texture.
    pub fn release_render_lease_accounting(
        &mut self,
        render_generation: u64,
        resource_handle: FrameResourceHandle,
    ) -> (r: RenderLeaseReleaseEffect)
        requires
            old(self).wf(),
        ensures
            final(self).wf(),
            r == old(self)@.release_effect(
                RenderLeaseKey { generation: render_generation, handle: resource_handle.0 },
            ),
            final(self)@ == old(self)@.released(
                RenderLeaseKey { generation: render_generation, handle: resource_handle.0 },
            ),
    {
        let key = RenderLeaseKey { generation: render_generation, handle: resource_handle.0 };
        let count: usize = match self.leases.get(key) {
            Some(count) => *count,
            None => {
                return RenderLeaseReleaseEffect::UnknownLease;
            },
        };
        if count > 1 {
            self.leases.insert(key, count - 1);
            assert(old(self)@.wf() && self@ == old(self)@.released(key));
            return RenderLeaseReleaseEffect::LeaseStillActive;
        }
        let _count = self.leases.remove(key);
        match self.deferred.remove(key) {
            Some(_) => {
                let _provider = self.providers.remove(key);
                assert(old(self)@.wf() && self@ == old(self)@.released(key));
                RenderLeaseReleaseEffect::DeferredTextureReady
            },
            None => {
                assert(self.deferred@ =~= old(self).deferred@);
                assert(old(self)@.wf() && self@ == old(self)@.released(key));
                RenderLeaseReleaseEffect::ReleasedWithoutDeferredTexture
            },
        }
    }

    /// Keeps the provider of a texture of the current generation that the renderer has used
    /// and let go of.
    pub fn remember_rendered_texture_release_provider(
        &mut self,
        render_generation: u64,
        resource_handle: FrameResourceHandle,
        resource_provider: P,
    )
        requires
            old(self).wf(),
        ensures
            final(self).wf(),
            ({
                let key = RenderLeaseKey {
                    generation: render_generation,
                    handle: resource_handle.0,
                };
                final(self)@ == if render_generation == old(self)@.generation
                    && !old(self)@.leases.contains_key(key) && !old(self)@.deferred.contains_key(
                    key,
                ) {
                    RenderLeaseLedgerView {
                        providers: old(self)@.providers.insert(key, resource_provider),
                        ..old(self)@
                    }
                } else {
                    old(self)@
                }
            }),
    {
        if render_generation != self.generation {
            return ;
        }
        let key = RenderLeaseKey { generation: render_generation, handle: resource_handle.0 };
        if self.leases.contains_key(key) || self.deferred.contains_key(key) {
            return ;
        }
        self.providers.insert(key, resource_provider);
        assert(old(self)@.wf() && self@.providers == old(self)@.providers.insert(
            key,
            resource_provider,
        ));
    }

    /// Decides how a texture of the current generation is released.
    pub fn request_video_texture_release(&mut self, resource_handle: FrameResourceHandle) -> (r:
        VideoTextureReleaseEffect<P>)
        requires
            old(self).wf(),
        ensures
            final(self).wf(),
            final(self)@ == old(self)@.release_requested(resource_handle),
            ({
                let key = RenderLeaseKey {
                    generation: old(self)@.generation,
                    handle: resource_handle.0,
                };
                r == if old(self)@.leases.contains_key(key) {
                    VideoTextureReleaseEffect::<P>::DeferredUntilRenderLeaseDrop
                } else if old(self)@.providers.contains_key(key) {
                    VideoTextureReleaseEffect::ReleaseViaRenderProvider(old(self)@.providers[key])
                } else {
                    VideoTextureReleaseEffect::<P>::ReleaseNow
                }
            }),
    {
        let key = RenderLeaseKey { generation: self.generation, handle: resource_handle.0 };
        if self.leases.contains_key(key) {
            self.deferred.insert(key, ());
            assert(old(self)@.wf() && self@ == old(self)@.release_requested(resource_handle));
            return VideoTextureReleaseEffect::DeferredUntilRenderLeaseDrop;
        }
        let provider = self.providers.remove(key);
        assert(old(self)@.wf() && self@ == old(self)@.release_requested(resource_handle));
        match provider {
            Some(resource_provider) => {
                VideoTextureReleaseEffect::ReleaseViaRenderProvider(resource_provider)
            },
            None => VideoTextureReleaseEffect::ReleaseNow,
        }
    }

    /// The number of textures that the renderer holds.
    pub fn active_render_lease_count(&self) -> (r: usize)
        requires
            self.wf(),
        ensures
            r == self@.leases.dom().len(),
    {
        self.leases.len()
    }

    /// Whether the release of a texture of the current generation is deferred.
    pub fn has_deferred_video_texture_release(&self, resource_handle: FrameResourceHandle) -> (r:
        bool)
        ensures
            r == self@.deferred.contains_key(
                RenderLeaseKey { generation: self@.generation, handle: resource_handle.0 },
            ),
    {
        self.deferred.contains_key(
            RenderLeaseKey { generation: self.generation, handle: resource_handle.0 },
        )
    }

    /// The number of textures whose release is deferred.
    pub fn deferred_render_release_count(&self) -> (r: usize)
        requires
            self.wf(),
        ensures
            r == self@.deferred.dom().len(),
    {
        self.deferred.len()
    }

    /// Keeps a decoder that was replaced for as long as the renderer holds a texture of its
    /// generation.
    pub fn retain_retired_video_decoder_for_outstanding_leases(
        &mut self,
        render_generation: u64,
        retired_decoder: Option<D>,
    ) -> (r: RetiredVideoDecoderOutcome)
        requires
            old(self).wf(),
        ensures
            final(self).wf(),
            r == if retired_decoder is None {
                RetiredVideoDecoderOutcome::NoDecoder
            } else if !old(self)@.has_leases(render_generation) {
                RetiredVideoDecoderOutcome::DroppedIdle
            } else if old(self)@.retired.contains_key(render_generation) {
                RetiredVideoDecoderOutcome::DuplicateGeneration
            } else {
                RetiredVideoDecoderOutcome::Retained
            },
            final(self)@ == if r == RetiredVideoDecoderOutcome::Retained {
                RenderLeaseLedgerView {
                    retired: old(self)@.retired.insert(render_generation, retired_decoder->0),
                    ..old(self)@
                }
            } else {
                old(self)@
            },
    {
        let retired_decoder = match retired_decoder {
            Some(retired_decoder) => retired_decoder,
            None => {
                return RetiredVideoDecoderOutcome::NoDecoder;
            },
        };
        if !self.has_render_leases_for_generation(render_generation) {
            return RetiredVideoDecoderOutcome::DroppedIdle;
        }
        if self.retired.contains_key(&render_generation) {
            return RetiredVideoDecoderOutcome::DuplicateGeneration;
        }
        let _former = self.retired.insert(render_generation, retired_decoder);
        RetiredVideoDecoderOutcome::Retained
    }

    /// The decoder that was replaced in a generation, where it is kept.
    pub fn retired_video_decoder(&self, render_generation: u64) -> (r: Option<&D>)
        ensures
            r is Some <==> self@.retired.contains_key(render_generation),
            r matches Some(decoder) ==> *decoder == self@.retired[render_generation],
    {
        self.retired.get(&render_generation)
    }

    /// Gives up the decoder that was replaced in a generation once the renderer holds none of
    /// its textures.
    pub fn release_retired_video_decoder_if_idle(&mut self, render_generation: u64)
        requires
            old(self).wf(),
        ensures
            final(self).wf(),
            final(self)@ == old(self)@.retired_released(render_generation),
    {
        if !self.has_render_leases_for_generation(render_generation) {
            let _retired = self.retired.remove(&render_generation);
            assert(old(self)@.wf() && self@ == old(self)@.retired_released(render_generation));
        }
    }

    /// Whether the renderer holds a texture of the generation.
    pub fn has_render_leases_for_generation(&self, render_generation: u64) -> (r: bool)
        ensures
            r == self@.has_leases(render_generation),
    {
        let r = self.leases.has_generation(render_generation);
        assert(self@.leases == self.leases@);
        r
    }
}

/// A lease that is added and ended again leaves the account as it was, unless the count of the
/// texture's leases is at the largest number that the account can hold.
pub proof fn law_lease_and_release_cancel_out<P, D>(
    ledger: RenderLeaseLedgerView<P, D>,
    key: RenderLeaseKey,
)
    requires
        ledger.wf(),
        ledger.lease_count(key) < usize::MAX,
    ensures
        ledger.registered(key).released(key) == ledger,
        ledger.registered(key).release_effect(key) == if ledger.leases.contains_key(key) {
            RenderLeaseReleaseEffect::LeaseStillActive
        } else {
            RenderLeaseReleaseEffect::ReleasedWithoutDeferredTexture
        },
{
    assert(ledger.registered(key).released(key).leases =~= ledger.leases);
}

/// A texture is not released while the renderer holds it: the wish to release it is deferred,
/// it is due with the last lease and no sooner, and it is due once.
pub proof fn law_deferred_release_is_due_once_with_the_last_lease<P, D>(
    ledger: RenderLeaseLedgerView<P, D>,
    handle: FrameResourceHandle,
)
    requires
        ledger.wf(),
        ledger.leases.contains_key(
            RenderLeaseKey { generation: ledger.generation, handle: handle.0 },
        ),
    ensures
        ({
            let key = RenderLeaseKey { generation: ledger.generation, handle: handle.0 };
            let requested = ledger.release_requested(handle);
            &&& requested.wf()
            &&& requested.deferred.contains_key(key)
            &&& requested.release_effect(key) == if ledger.leases[key] > 1 {
                RenderLeaseReleaseEffect::LeaseStillActive
            } else {
                RenderLeaseReleaseEffect::DeferredTextureReady
            }
            &&& ledger.leases[key] > 1 ==> requested.released(key).deferred.contains_key(key)
            &&& ledger.leases[key] == 1 ==> {
                &&& !requested.released(key).deferred.contains_key(key)
                &&& requested.released(key).release_effect(key)
                    == RenderLeaseReleaseEffect::UnknownLease
            }
        }),
{
}

/// Every change of the account keeps it well formed: no texture without a lease has a deferred
/// release, whatever happens.
pub proof fn law_ledger_stays_well_formed<P, D>(
    ledger: RenderLeaseLedgerView<P, D>,
    key: RenderLeaseKey,
    handle: FrameResourceHandle,
    generation: u64,
)
    requires
        ledger.wf(),
    ensures
        ledger.registered(key).wf(),
        ledger.released(key).wf(),
        ledger.release_requested(handle).wf(),
        ledger.retired_released(generation).wf(),
{
}

/// A decoder that was replaced is kept after a frame went back only while the renderer holds a
/// texture of its generation.
pub proof fn law_retired_decoder_outlives_only_its_leases<P, D>(
    ledger: RenderLeaseLedgerView<P, D>,
    generation: u64,
)
    ensures
        ledger.retired_released(generation).retired.contains_key(generation) ==> ledger.has_leases(
            generation,
        ),
        ledger.has_leases(generation) ==> ledger.retired_released(generation) == ledger,
{
}

/// Only a texture of the generation that the ledger tells is leased, and its lease is one more than
/// before; no other texture's leases, deferred releases, providers or decoders change.
pub proof fn law_lease_counts_one_more<P, D>(
    before: RenderLeaseLedger<P, D>,
    after: RenderLeaseLedger<P, D>,
    generation: u64,
    handle: FrameResourceHandle,
    current: u64,
    leased: bool,
    other: RenderLeaseKey,
)
    requires
        before@.lease_count(RenderLeaseKey { generation, handle: handle.0 }) < usize::MAX,
        call_ensures(RenderLeaseLedger::<P, D>::render_generation, (&before,), current),
        exists|ledger: &mut RenderLeaseLedger<P, D>|
            *ledger == before && *final(ledger) == after && #[trigger] call_ensures(
                RenderLeaseLedger::<P, D>::try_register_render_lease,
                (ledger, generation, handle),
                leased,
            ),
    ensures
        leased <==> generation == current,
        !leased ==> after@ == before@,
        leased ==> {
            let key = RenderLeaseKey { generation, handle: handle.0 };
            &&& after@.leases.contains_key(key)
            &&& before@.leases.contains_key(key) ==> after@.leases[key] == before@.leases[key] + 1
            &&& !before@.leases.contains_key(key) ==> after@.leases[key] == 1
        },
        other != (RenderLeaseKey { generation, handle: handle.0 }) ==> {
            &&& after@.leases.contains_key(other) == before@.leases.contains_key(other)
            &&& before@.leases.contains_key(other) ==> after@.leases[other]
                == before@.leases[other]
        },
        after@.generation == before@.generation,
        after@.deferred == before@.deferred,
        after@.providers == before@.providers,
        after@.retired == before@.retired,
{
}

/// The end of a lease takes one off the count of the texture, and the texture itself with the last
/// one. Its deferred release is due with the last lease and no sooner. Other textures keep what
/// they have.
pub proof fn law_release_takes_one_lease_away<P, D>(
    before: RenderLeaseLedger<P, D>,
    after: RenderLeaseLedger<P, D>,
    generation: u64,
    handle: FrameResourceHandle,
    effect: RenderLeaseReleaseEffect,
    other: RenderLeaseKey,
)
    requires
        before.wf(),
        exists|ledger: &mut RenderLeaseLedger<P, D>|
            *ledger == before && *final(ledger) == after && #[trigger] call_ensures(
                RenderLeaseLedger::<P, D>::release_render_lease_accounting,
                (ledger, generation, handle),
                effect,
            ),
    ensures
        ({
            let key = RenderLeaseKey { generation, handle: handle.0 };
            &&& effect is UnknownLease <==> !before@.leases.contains_key(key)
            &&& effect is UnknownLease ==> after@ == before@
            &&& effect is LeaseStillActive <==> before@.leases.contains_key(key)
                && before@.leases[key] > 1
            &&& effect is LeaseStillActive ==> after@.leases.contains_key(key)
                && after@.leases[key] == before@.leases[key] - 1 && after@.deferred
                == before@.deferred && after@.providers == before@.providers
            &&& effect is DeferredTextureReady <==> before@.leases.contains_key(key)
                && before@.leases[key] == 1 && before@.deferred.contains_key(key)
            &&& effect is ReleasedWithoutDeferredTexture <==> before@.leases.contains_key(key)
                && before@.leases[key] == 1 && !before@.deferred.contains_key(key)
            &&& effect is DeferredTextureReady || effect is ReleasedWithoutDeferredTexture
                ==> !after@.leases.contains_key(key) && !after@.deferred.contains_key(key)
            &&& effect is DeferredTextureReady ==> !after@.providers.contains_key(key)
            &&& effect is ReleasedWithoutDeferredTexture ==> after@.providers == before@.providers
            &&& other != key ==> {
                &&& after@.leases.contains_key(other) == before@.leases.contains_key(other)
                &&& before@.leases.contains_key(other) ==> after@.leases[other]
                    == before@.leases[other]
                &&& after@.deferred.contains_key(other) == before@.deferred.contains_key(other)
                &&& after@.providers.contains_key(other) == before@.providers.contains_key(other)
                &&& before@.providers.contains_key(other) ==> after@.providers[other]
                    == before@.providers[other]
            }
        }),
        after@.generation == before@.generation,
        after@.retired == before@.retired,
{
    lemma_ledger_wf(before);
    let key = RenderLeaseKey { generation, handle: handle.0 };
    assert(before@.leases.contains_key(key) ==> before@.leases[key] >= 1);
}

/// A wish to release a texture that the renderer holds is deferred, comes due when the one lease
/// ends, and is gone then.
pub proof fn law_deferred_release_comes_due<P, D>(
    before: RenderLeaseLedger<P, D>,
    leased: RenderLeaseLedger<P, D>,
    asked: RenderLeaseLedger<P, D>,
    ended: RenderLeaseLedger<P, D>,
    again: RenderLeaseLedger<P, D>,
    handle: FrameResourceHandle,
    wish: VideoTextureReleaseEffect<P>,
    deferred: bool,
    end: RenderLeaseReleaseEffect,
    deferred_still: bool,
    second_end: RenderLeaseReleaseEffect,
)
    requires
        before.wf(),
        !before@.leases.contains_key(
            RenderLeaseKey { generation: before@.generation, handle: handle.0 },
        ),
        exists|ledger: &mut RenderLeaseLedger<P, D>|
            *ledger == before && *final(ledger) == leased && #[trigger] call_ensures(
                RenderLeaseLedger::<P, D>::try_register_render_lease,
                (ledger, before@.generation, handle),
                true,
            ),
        exists|ledger: &mut RenderLeaseLedger<P, D>|
            *ledger == leased && *final(ledger) == asked && #[trigger] call_ensures(
                RenderLeaseLedger::<P, D>::request_video_texture_release,
                (ledger, handle),
                wish,
            ),
        call_ensures(
            RenderLeaseLedger::<P, D>::has_deferred_video_texture_release,
            (&asked, handle),
            deferred,
        ),
        exists|ledger: &mut RenderLeaseLedger<P, D>|
            *ledger == asked && *final(ledger) == ended && #[trigger] call_ensures(
                RenderLeaseLedger::<P, D>::release_render_lease_accounting,
                (ledger, before@.generation, handle),
                end,
            ),
        call_ensures(
            RenderLeaseLedger::<P, D>::has_deferred_video_texture_release,
            (&ended, handle),
            deferred_still,
        ),
        exists|ledger: &mut RenderLeaseLedger<P, D>|
            *ledger == ended && *final(ledger) == again && #[trigger] call_ensures(
                RenderLeaseLedger::<P, D>::release_render_lease_accounting,
                (ledger, before@.generation, handle),
                second_end,
            ),
    ensures
        wish is DeferredUntilRenderLeaseDrop,
        deferred,
        end is DeferredTextureReady,
        !deferred_still,
        second_end is UnknownLease,
{
}

/// A texture that the renderer does not hold goes back through the provider that is remembered for
/// it, once; without one it goes back at once. A provider is remembered only for a texture of the
/// current generation that is neither leased nor to be released later.
pub proof fn law_texture_goes_back_through_its_provider<P, D>(
    before: RenderLeaseLedger<P, D>,
    remembered: RenderLeaseLedger<P, D>,
    asked: RenderLeaseLedger<P, D>,
    again: RenderLeaseLedger<P, D>,
    generation: u64,
    handle: FrameResourceHandle,
    provider: P,
    wish: VideoTextureReleaseEffect<P>,
    second_wish: VideoTextureReleaseEffect<P>,
)
    requires
        before.wf(),
        exists|ledger: &mut RenderLeaseLedger<P, D>|
            *ledger == before && *final(ledger) == remembered && #[trigger] call_ensures(
                RenderLeaseLedger::<P, D>::remember_rendered_texture_release_provider,
                (ledger, generation, handle, provider),
                (),
            ),
        exists|ledger: &mut RenderLeaseLedger<P, D>|
            *ledger == remembered && *final(ledger) == asked && #[trigger] call_ensures(
                RenderLeaseLedger::<P, D>::request_video_texture_release,
                (ledger, handle),
                wish,
            ),
        exists|ledger: &mut RenderLeaseLedger<P, D>|
            *ledger == asked && *final(ledger) == again && #[trigger] call_ensures(
                RenderLeaseLedger::<P, D>::request_video_texture_release,
                (ledger, handle),
                second_wish,
            ),
    ensures
        ({
            let key = RenderLeaseKey { generation: before@.generation, handle: handle.0 };
            &&& before@.leases.contains_key(key) ==> wish is DeferredUntilRenderLeaseDrop
                && second_wish is DeferredUntilRenderLeaseDrop && remembered@ == before@
            &&& !before@.leases.contains_key(key) && generation == before@.generation ==> wish
                == VideoTextureReleaseEffect::ReleaseViaRenderProvider(provider)
            &&& !before@.leases.contains_key(key) ==> second_wish is ReleaseNow
            &&& generation != before@.generation ==> remembered@ == before@
            &&& !before@.leases.contains_key(key) && !before@.providers.contains_key(key)
                && generation != before@.generation ==> wish is ReleaseNow
        }),
        again@.leases == before@.leases,
        remembered@.deferred == before@.deferred,
{
    lemma_ledger_wf(before);
}

/// With the next generation of render resources the leases of the former one stay on the account,
/// and their release still comes due; the providers of the former one are gone, and no texture of
/// it is leased any more.
pub proof fn law_next_generation_keeps_leases_and_forgets_providers<P, D>(
    before: RenderLeaseLedger<P, D>,
    after: RenderLeaseLedger<P, D>,
    refused: RenderLeaseLedger<P, D>,
    handle: FrameResourceHandle,
    generation: u64,
    leased: bool,
)
    requires
        exists|ledger: &mut RenderLeaseLedger<P, D>|
            *ledger == before && *final(ledger) == after && #[trigger] call_ensures(
                RenderLeaseLedger::<P, D>::advance_render_generation,
                (ledger,),
                (),
            ),
        call_ensures(RenderLeaseLedger::<P, D>::render_generation, (&after,), generation),
        exists|ledger: &mut RenderLeaseLedger<P, D>|
            *ledger == after && *final(ledger) == refused && #[trigger] call_ensures(
                RenderLeaseLedger::<P, D>::try_register_render_lease,
                (ledger, before@.generation, handle),
                leased,
            ),
    ensures
        generation != before@.generation,
        before@.generation < u64::MAX ==> generation == before@.generation + 1,
        after@.leases == before@.leases,
        after@.deferred == before@.deferred,
        after@.retired == before@.retired,
        forall|key: RenderLeaseKey| !after@.providers.contains_key(key),
        !leased,
{
}

/// A replaced decoder is kept exactly where the renderer holds a texture of its generation and none
/// is kept for it yet, and it is kept until no texture of the generation is held any more.
pub proof fn law_replaced_decoder_stays_while_its_textures_are_held<P, D>(
    before: RenderLeaseLedger<P, D>,
    kept: RenderLeaseLedger<P, D>,
    after: RenderLeaseLedger<P, D>,
    generation: u64,
    decoder: D,
    held: bool,
    outcome: RetiredVideoDecoderOutcome,
)
    requires
        call_ensures(
            RenderLeaseLedger::<P, D>::has_render_leases_for_generation,
            (&before, generation),
            held,
        ),
        exists|ledger: &mut RenderLeaseLedger<P, D>|
            *ledger == before && *final(ledger) == kept && #[trigger] call_ensures(
                RenderLeaseLedger::<P, D>::retain_retired_video_decoder_for_outstanding_leases,
                (ledger, generation, Some(decoder)),
                outcome,
            ),
        exists|ledger: &mut RenderLeaseLedger<P, D>|
            *ledger == kept && *final(ledger) == after && #[trigger] call_ensures(
                RenderLeaseLedger::<P, D>::release_retired_video_decoder_if_idle,
                (ledger, generation),
                (),
            ),
    ensures
        held <==> exists|key: RenderLeaseKey| #[trigger]
            before@.leases.contains_key(key) && key.generation == generation,
        outcome is DroppedIdle <==> !held,
        outcome is Retained <==> held && !before@.retired.contains_key(generation),
        outcome is DuplicateGeneration <==> held && before@.retired.contains_key(generation),
        outcome is Retained ==> kept@.retired.contains_key(generation) && kept@.retired[generation]
            == decoder,
        !(outcome is Retained) ==> kept@ == before@,
        held ==> after@ == kept@,
        !held ==> !after@.retired.contains_key(generation),
        forall|other: u64|
            other != generation ==> after@.retired.contains_key(other)
                == #[trigger] before@.retired.contains_key(other),
        after@.leases == before@.leases && after@.deferred == before@.deferred && after@.providers
            == before@.providers,
{
    if held {
        let key = choose|key: RenderLeaseKey| #[trigger]
            before@.leases.contains_key(key) && key.generation == generation;
        assert(kept@.leases.contains_key(key));
    } else {
        assert forall|key: RenderLeaseKey| #[trigger] kept@.leases.contains_key(
            key,
        ) implies key.generation != generation by {
            assert(!before@.leases.contains_key(key) || key.generation != generation);
        }
    }
}

} // verus!
