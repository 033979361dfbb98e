//! A demuxer that was read ahead and now replays what it handed over.
use crate::demux::{
    clone_tracks, DemuxReadEvent, DemuxSeekRequest, DemuxSeekResult, DemuxSeekability, Demuxer,
    MediaMetadata, TrackInfo,
};
use crate::time::Duration;
use std::collections::VecDeque;
use vstd::prelude::*;

verus! {

/// What a consumer sees of a medium at one place of the stream.
pub struct VisibleMediaView<T> {
    /// Tracks.
    pub tracks: Seq<TrackInfo<T>>,
    /// Length.
    pub duration: Option<Duration>,
    /// Whether the source can be positioned.
    pub seekability: DemuxSeekability,
    /// Metadata.
    pub media_metadata: Option<MediaMetadata>,
}

impl<T> VisibleMediaView<T> {
    /// What a consumer sees once it has seen the event.
    pub open spec fn after(self, event: DemuxReadEvent<T>) -> Self {
        match event {
            DemuxReadEvent::TracksChanged(update) => VisibleMediaView {
                tracks: update.tracks@,
                duration: update.duration,
                ..self
            },
            DemuxReadEvent::MediaMetadataChanged(metadata) => VisibleMediaView {
                media_metadata: Some(metadata),
                ..self
            },
            _ => self,
        }
    }

    /// What a consumer sees once it has seen the events, one after the other.
    pub open spec fn after_all(self, events: Seq<DemuxReadEvent<T>>) -> Self
        decreases events.len(),
    {
        if events.len() == 0 {
            self
        } else {
            self.after(events[0]).after_all(events.drop_first())
        }
    }
}

/// A demuxer in front of which the events that were read ahead wait. A consumer meets every
/// event in the order in which it was read, and sees of the medium what it saw at that place.
pub struct PrefetchedDemuxer<D: Demuxer> {
    inner: D,
    replay_events: VecDeque<DemuxReadEvent<D::TrackDetails>>,
    visible_tracks: Vec<TrackInfo<D::TrackDetails>>,
    visible_duration: Option<Duration>,
    visible_seekability: DemuxSeekability,
    visible_media_metadata: Option<MediaMetadata>,
}

impl<D: Demuxer> PrefetchedDemuxer<D> {
    /// The events that wait.
    pub closed spec fn replay(self) -> Seq<DemuxReadEvent<D::TrackDetails>> {
        self.replay_events@
    }

    /// What a consumer sees.
    pub closed spec fn visible(self) -> VisibleMediaView<D::TrackDetails> {
        VisibleMediaView {
            tracks: self.visible_tracks@,
            duration: self.visible_duration,
            seekability: self.visible_seekability,
            media_metadata: self.visible_media_metadata,
        }
    }

    /// The demuxer that was read ahead.
    pub closed spec fn source(self) -> D {
        self.inner
    }

    /// Puts the events that were read ahead in front of their demuxer.
    pub fn new(
        inner: D,
        visible_tracks: Vec<TrackInfo<D::TrackDetails>>,
        visible_duration: Option<Duration>,
        visible_seekability: DemuxSeekability,
        visible_media_metadata: Option<MediaMetadata>,
        replay_events: VecDeque<DemuxReadEvent<D::TrackDetails>>,
    ) -> (r: Self)
        ensures
            r.source() == inner,
            r.replay() == replay_events@,
            r.visible() == (VisibleMediaView {
                tracks: visible_tracks@,
                duration: visible_duration,
                seekability: visible_seekability,
                media_metadata: visible_media_metadata,
            }),
    {
        PrefetchedDemuxer {
            inner,
            replay_events,
            visible_tracks,
            visible_duration,
            visible_seekability,
            visible_media_metadata,
        }
    }

    /// Takes over what an event says of the medium, at the moment at which the consumer meets
    /// the event.
    pub fn apply_visible_lifecycle_event(&mut self, event: &DemuxReadEvent<D::TrackDetails>)
        ensures
            final(self).visible() == old(self).visible().after(*event),
            final(self).replay() == old(self).replay(),
            final(self).source() == old(self).source(),
    {
        match event {
            DemuxReadEvent::TracksChanged(track_update) => {
                self.visible_tracks = clone_tracks(&track_update.tracks);
                self.visible_duration = track_update.duration;
            },
            DemuxReadEvent::MediaMetadataChanged(metadata) => {
                self.visible_media_metadata = Some(metadata.clone());
            },
            DemuxReadEvent::Packet(_)
            | DemuxReadEvent::EndOfStream
            | DemuxReadEvent::TemporarilyUnavailable(_) => {},
        }
    }

    /// Hands over the next event that waits.
    pub fn replay_next_event(&mut self) -> (r: Option<DemuxReadEvent<D::TrackDetails>>)
        ensures
            final(self).source() == old(self).source(),
            old(self).replay().len() == 0 ==> {
                &&& r is None
                &&& final(self).replay() == old(self).replay()
                &&& final(self).visible() == old(self).visible()
            },
            old(self).replay().len() > 0 ==> {
                &&& r == Some(old(self).replay()[0])
                &&& final(self).replay() == old(self).replay().drop_first()
                &&& final(self).visible() == old(self).visible().after(old(self).replay()[0])
            },
    {
        match self.replay_events.pop_front() {
            Some(event) => {
                assert(self.replay() =~= old(self).replay().drop_first());
                self.apply_visible_lifecycle_event(&event);
                Some(event)
            },
            None => None,
        }
    }

    /// Forgets the events that wait, because the source reads on elsewhere, and takes over what
    /// holds there. The tracks keep their order: a seek does not change them.
    pub fn refresh_visible_snapshots_after_seek(
        &mut self,
        duration: Option<Duration>,
        seekability: DemuxSeekability,
        media_metadata: Option<MediaMetadata>,
    )
        ensures
            final(self).source() == old(self).source(),
            final(self).replay() == Seq::<DemuxReadEvent<D::TrackDetails>>::empty(),
            final(self).visible() == (VisibleMediaView {
                tracks: old(self).visible().tracks,
                duration,
                seekability,
                media_metadata,
            }),
    {
        self.replay_events.clear();
        self.visible_duration = duration;
        self.visible_seekability = seekability;
        self.visible_media_metadata = media_metadata;
    }
}

impl<D: Demuxer> PrefetchedDemuxer<D> {
    /// Whether a consumer sees, but for the tracks, what the source says of itself.
    pub open spec fn shows_source(self) -> bool {
        &&& call_ensures(<D as Demuxer>::duration, (&self.source(),), self.visible().duration)
        &&& call_ensures(<D as Demuxer>::seekability, (&self.source(),), self.visible().seekability)
        &&& call_ensures(
            <D as Demuxer>::media_metadata,
            (&self.source(),),
            self.visible().media_metadata,
        )
    }

    /// Takes over what the source says of itself after a seek.
    fn refresh_from_source(&mut self)
        ensures
            final(self).source() == old(self).source(),
            final(self).replay() == Seq::<DemuxReadEvent<D::TrackDetails>>::empty(),
            final(self).visible().tracks == old(self).visible().tracks,
            final(self).shows_source(),
    {
        let duration = self.inner.duration();
        let seekability = self.inner.seekability();
        let media_metadata = self.inner.media_metadata();
        self.refresh_visible_snapshots_after_seek(duration, seekability, media_metadata);
    }
}

impl<D: Demuxer> Demuxer for PrefetchedDemuxer<D> {
    type Error = D::Error;

    type TrackDetails = D::TrackDetails;

    /// The tracks that the consumer sees.
    fn tracks(&self) -> (r: Vec<TrackInfo<D::TrackDetails>>)
        ensures
            r@ == self.visible().tracks,
    {
        clone_tracks(&self.visible_tracks)
    }

    /// The length that the consumer sees.
    fn duration(&self) -> (r: Option<Duration>)
        ensures
            r == self.visible().duration,
    {
        self.visible_duration
    }

    /// The metadata that the consumer sees.
    fn media_metadata(&self) -> (r: Option<MediaMetadata>)
        ensures
            r == self.visible().media_metadata,
    {
        match &self.visible_media_metadata {
            Some(metadata) => Some(metadata.clone()),
            None => None,
        }
    }

    /// Whether the consumer sees a source that can be positioned.
    fn seekability(&self) -> (r: DemuxSeekability)
        ensures
            r == self.visible().seekability,
    {
        self.visible_seekability
    }

    /// Hands over an event that waits, and reads the source on only when none is left.
    fn next_event(&mut self) -> (r: Result<DemuxReadEvent<D::TrackDetails>, D::Error>)
        ensures
            old(self).replay().len() > 0 ==> {
                &&& r == Ok::<_, D::Error>(old(self).replay()[0])
                &&& final(self).source() == old(self).source()
                &&& final(self).replay() == old(self).replay().drop_first()
                &&& final(self).visible() == old(self).visible().after(old(self).replay()[0])
            },
            old(self).replay().len() == 0 ==> exists|source: &mut D|
                *source == old(self).source() && *final(source) == final(self).source()
                    && #[trigger] call_ensures(<D as Demuxer>::next_event, (source,), r),
            old(self).replay().len() == 0 ==> {
                &&& final(self).replay() == old(self).replay()
                &&& final(self).visible() == match r {
                    Ok(event) => old(self).visible().after(event),
                    Err(_) => old(self).visible(),
                }
            },
    {
        match self.replay_next_event() {
            Some(event) => Ok(event),
            None => match self.inner.next_event() {
                Ok(event) => {
                    self.apply_visible_lifecycle_event(&event);
                    Ok(event)
                },
                Err(error) => Err(error),
            },
        }
    }

    /// Positions the source exactly. A seek that succeeded forgets the events that wait; one
    /// that failed leaves them.
    fn seek(&mut self, timestamp: Duration) -> (r: Result<DemuxSeekResult, D::Error>)
        ensures
            exists|source: &mut D|
                *source == old(self).source() && *final(source) == final(self).source()
                    && #[trigger] call_ensures(<D as Demuxer>::seek, (source, timestamp), r),
            r is Ok ==> final(self).replay() == Seq::<DemuxReadEvent<D::TrackDetails>>::empty()
                && final(self).shows_source(),
            r is Err ==> final(self).replay() == old(self).replay() && final(self).visible()
                == old(self).visible(),
            final(self).visible().tracks == old(self).visible().tracks,
    {
        match self.inner.seek(timestamp) {
            Ok(seek_result) => {
                self.refresh_from_source();
                Ok(seek_result)
            },
            Err(error) => Err(error),
        }
    }

    /// Positions the source as it is asked to. A seek that succeeded forgets the events that
    /// wait; one that failed leaves them.
    fn seek_with_request(&mut self, request: DemuxSeekRequest) -> (r: Result<
        DemuxSeekResult,
        D::Error,
    >)
        ensures
            exists|source: &mut D|
                *source == old(self).source() && *final(source) == final(self).source()
                    && #[trigger] call_ensures(<D as Demuxer>::seek_with_request, (source, request), r),
            r is Ok ==> final(self).replay() == Seq::<DemuxReadEvent<D::TrackDetails>>::empty()
                && final(self).shows_source(),
            r is Err ==> final(self).replay() == old(self).replay() && final(self).visible()
                == old(self).visible(),
            final(self).visible().tracks == old(self).visible().tracks,
    {
        match self.inner.seek_with_request(request) {
            Ok(seek_result) => {
                self.refresh_from_source();
                Ok(seek_result)
            },
            Err(error) => Err(error),
        }
    }
}

/// What a consumer sees does not depend on where the events are split: seeing some events and
/// then others is seeing all of them.
pub proof fn law_visible_media_follows_the_events<T>(
    visible: VisibleMediaView<T>,
    first: Seq<DemuxReadEvent<T>>,
    second: Seq<DemuxReadEvent<T>>,
)
    ensures
        visible.after_all(first + second) == visible.after_all(first).after_all(second),
    decreases first.len(),
{
    if first.len() == 0 {
        assert(first + second =~= second);
    } else {
        assert((first + second).drop_first() =~= first.drop_first() + second);
        law_visible_media_follows_the_events(visible.after(first[0]), first.drop_first(), second);
    }
}

/// Events that were read ahead come out in their order, before the source is read on. What is seen
/// of the medium changes with an event exactly as the event says: a new list of tracks with its
/// length, new metadata, and nothing with any other event.
pub proof fn law_events_that_were_read_ahead_are_replayed<D: Demuxer>(
    source: D,
    tracks: Vec<TrackInfo<D::TrackDetails>>,
    duration: Option<Duration>,
    seekability: DemuxSeekability,
    metadata: Option<MediaMetadata>,
    events: VecDeque<DemuxReadEvent<D::TrackDetails>>,
    made: PrefetchedDemuxer<D>,
    after: PrefetchedDemuxer<D>,
    event: Result<DemuxReadEvent<D::TrackDetails>, D::Error>,
    seen_tracks: Vec<TrackInfo<D::TrackDetails>>,
    seen_duration: Option<Duration>,
    seen_seekability: DemuxSeekability,
    seen_metadata: Option<MediaMetadata>,
)
    requires
        events@.len() > 0,
        call_ensures(
            PrefetchedDemuxer::<D>::new,
            (source, tracks, duration, seekability, metadata, events),
            made,
        ),
        exists|demuxer: &mut PrefetchedDemuxer<D>|
            *demuxer == made && *final(demuxer) == after && #[trigger] call_ensures(
                <PrefetchedDemuxer<D> as Demuxer>::next_event,
                (demuxer,),
                event,
            ),
        call_ensures(<PrefetchedDemuxer<D> as Demuxer>::tracks, (&after,), seen_tracks),
        call_ensures(<PrefetchedDemuxer<D> as Demuxer>::duration, (&after,), seen_duration),
        call_ensures(<PrefetchedDemuxer<D> as Demuxer>::seekability, (&after,), seen_seekability),
        call_ensures(<PrefetchedDemuxer<D> as Demuxer>::media_metadata, (&after,), seen_metadata),
    ensures
        event is Ok && event->Ok_0 == events@[0],
        after.replay() == events@.drop_first(),
        after.source() == source,
        seen_seekability == seekability,
        events@[0] matches DemuxReadEvent::TracksChanged(update) ==> seen_tracks@ == update.tracks@
            && seen_duration == update.duration && seen_metadata == metadata,
        events@[0] matches DemuxReadEvent::MediaMetadataChanged(changed) ==> seen_metadata == Some(
            changed,
        ) && seen_tracks@ == tracks@ && seen_duration == duration,
        !(events@[0] is TracksChanged) && !(events@[0] is MediaMetadataChanged) ==> seen_tracks@
            == tracks@ && seen_duration == duration && seen_metadata == metadata,
{
}

/// Once no event waits, the source is read on, and what it hands over changes what is seen as the
/// event says.
pub proof fn law_source_is_read_on_behind_the_events<D: Demuxer>(
    before: PrefetchedDemuxer<D>,
    after: PrefetchedDemuxer<D>,
    event: Result<DemuxReadEvent<D::TrackDetails>, D::Error>,
    tracks: Vec<TrackInfo<D::TrackDetails>>,
    seen_tracks: Vec<TrackInfo<D::TrackDetails>>,
    duration: Option<Duration>,
    seen_duration: Option<Duration>,
)
    requires
        before.replay().len() == 0,
        call_ensures(<PrefetchedDemuxer<D> as Demuxer>::tracks, (&before,), tracks),
        call_ensures(<PrefetchedDemuxer<D> as Demuxer>::duration, (&before,), duration),
        exists|demuxer: &mut PrefetchedDemuxer<D>|
            *demuxer == before && *final(demuxer) == after && #[trigger] call_ensures(
                <PrefetchedDemuxer<D> as Demuxer>::next_event,
                (demuxer,),
                event,
            ),
        call_ensures(<PrefetchedDemuxer<D> as Demuxer>::tracks, (&after,), seen_tracks),
        call_ensures(<PrefetchedDemuxer<D> as Demuxer>::duration, (&after,), seen_duration),
    ensures
        exists|source: &mut D|
            *source == before.source() && *final(source) == after.source()
                && #[trigger] call_ensures(<D as Demuxer>::next_event, (source,), event),
        event is Err || !(event->Ok_0 is TracksChanged) ==> seen_tracks@ == tracks@ && seen_duration
            == duration,
        event is Ok && event->Ok_0 is TracksChanged ==> seen_tracks@
            == event->Ok_0->TracksChanged_0.tracks@ && seen_duration
            == event->Ok_0->TracksChanged_0.duration,
{
}

/// A seek that succeeded forgets the events that wait and shows what the source says of itself from
/// then on; one that failed changes nothing of what waits and is seen. The tracks stay.
pub proof fn law_seek_forgets_what_was_read_ahead<D: Demuxer>(
    before: PrefetchedDemuxer<D>,
    after: PrefetchedDemuxer<D>,
    timestamp: Duration,
    landed: Result<DemuxSeekResult, D::Error>,
    tracks: Vec<TrackInfo<D::TrackDetails>>,
    seen_tracks: Vec<TrackInfo<D::TrackDetails>>,
    seen_duration: Option<Duration>,
    seen_seekability: DemuxSeekability,
    seen_metadata: Option<MediaMetadata>,
)
    requires
        call_ensures(<PrefetchedDemuxer<D> as Demuxer>::tracks, (&before,), tracks),
        exists|demuxer: &mut PrefetchedDemuxer<D>|
            *demuxer == before && *final(demuxer) == after && #[trigger] call_ensures(
                <PrefetchedDemuxer<D> as Demuxer>::seek,
                (demuxer, timestamp),
                landed,
            ),
        call_ensures(<PrefetchedDemuxer<D> as Demuxer>::tracks, (&after,), seen_tracks),
        call_ensures(<PrefetchedDemuxer<D> as Demuxer>::duration, (&after,), seen_duration),
        call_ensures(<PrefetchedDemuxer<D> as Demuxer>::seekability, (&after,), seen_seekability),
        call_ensures(<PrefetchedDemuxer<D> as Demuxer>::media_metadata, (&after,), seen_metadata),
    ensures
        seen_tracks@ == tracks@,
        landed is Ok ==> {
            &&& after.replay().len() == 0
            &&& call_ensures(<D as Demuxer>::duration, (&after.source(),), seen_duration)
            &&& call_ensures(<D as Demuxer>::seekability, (&after.source(),), seen_seekability)
            &&& call_ensures(<D as Demuxer>::media_metadata, (&after.source(),), seen_metadata)
        },
        landed is Err ==> after.replay() == before.replay() && after.visible() == before.visible(),
{
}

} // verus!
