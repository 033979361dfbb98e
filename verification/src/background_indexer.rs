//! Index of keyframes that is gathered while media plays.
use crate::command::SeekMode;
use crate::diagnostics::bumped;
use crate::media::{MediaDuration, MediaTime, TrackId, TrackKind};
use crate::time::{lemma_duration_ext, Duration};
use vstd::prelude::*;

verus! {

broadcast use lemma_duration_ext;

/// Bytes in one mebibyte.
pub const BYTES_PER_MEBIBYTE: u64 = 1_048_576;

/// Settings of the index.
#[derive(Debug, Clone, Copy, PartialEq, Eq, Structural)]
pub struct BackgroundIndexerConfig {
    /// Bytes per second that a scan may read.
    pub io_budget_bytes_per_sec: u64,
}

impl BackgroundIndexerConfig {
    /// Settings for a budget in mebibytes per second.
    pub fn from_network_config(indexer_io_budget_mb_per_sec: u64) -> (r: Self)
        ensures
            r.io_budget_bytes_per_sec == if indexer_io_budget_mb_per_sec * BYTES_PER_MEBIBYTE
                > u64::MAX {
                u64::MAX as int
            } else {
                indexer_io_budget_mb_per_sec * BYTES_PER_MEBIBYTE
            },
    {
        let io_budget_bytes_per_sec: u64 = match indexer_io_budget_mb_per_sec.checked_mul(
            BYTES_PER_MEBIBYTE,
        ) {
            Some(bytes) => bytes,
            None => u64::MAX,
        };
        BackgroundIndexerConfig { io_budget_bytes_per_sec }
    }
}

/// Why the index is not being built.
#[derive(Debug, Clone, Copy, PartialEq, Eq, Structural)]
pub enum IndexPauseReason {
    /// The user scrubs.
    ActiveScrub,
    /// The playback buffer is low.
    LowPlaybackBuffer,
    /// Decoding or rendering is under load.
    HighDecodeOrRenderLoad,
    /// The session ends.
    Shutdown,
}

/// Pressure to which the index gives way.
#[derive(Debug, Clone, Copy, PartialEq, Eq, Structural)]
pub struct IndexPressureSnapshot {
    /// The user scrubs.
    pub active_scrub: bool,
    /// The playback buffer is low.
    pub low_playback_buffer: bool,
    /// Decoding or rendering is under load.
    pub high_decode_render_load: bool,
    /// The session ends.
    pub shutdown_requested: bool,
}

impl Default for IndexPressureSnapshot {
    fn default() -> (r: Self)
        ensures
            r == (IndexPressureSnapshot {
                active_scrub: false,
                low_playback_buffer: false,
                high_decode_render_load: false,
                shutdown_requested: false,
            }),
    {
        IndexPressureSnapshot {
            active_scrub: false,
            low_playback_buffer: false,
            high_decode_render_load: false,
            shutdown_requested: false,
        }
    }
}

impl IndexPressureSnapshot {
    /// The first reason that applies: the end of the session, scrubbing, a low buffer, load.
    pub open spec fn reason(self) -> Option<IndexPauseReason> {
        if self.shutdown_requested {
            Some(IndexPauseReason::Shutdown)
        } else if self.active_scrub {
            Some(IndexPauseReason::ActiveScrub)
        } else if self.low_playback_buffer {
            Some(IndexPauseReason::LowPlaybackBuffer)
        } else if self.high_decode_render_load {
            Some(IndexPauseReason::HighDecodeOrRenderLoad)
        } else {
            None
        }
    }

    /// The first reason that applies: the end of the session, scrubbing, a low buffer, load.
    pub fn pause_reason(self) -> (r: Option<IndexPauseReason>)
        ensures
            r == self.reason(),
            r is None <==> !(self.shutdown_requested || self.active_scrub
                || self.low_playback_buffer || self.high_decode_render_load),
    {
        if self.shutdown_requested {
            Some(IndexPauseReason::Shutdown)
        } else if self.active_scrub {
            Some(IndexPauseReason::ActiveScrub)
        } else if self.low_playback_buffer {
            Some(IndexPauseReason::LowPlaybackBuffer)
        } else if self.high_decode_render_load {
            Some(IndexPauseReason::HighDecodeOrRenderLoad)
        } else {
            None
        }
    }
}

/// One point of the index.
#[derive(Debug, Clone, Copy, PartialEq, Eq, Structural)]
pub struct BackgroundIndexEntry {
    /// Track of the packet.
    pub track_id: TrackId,
    /// Position of the packet.
    pub time: MediaTime,
    /// Place in the source, where it is known.
    pub byte_offset: Option<u64>,
    /// Whether the packet is a keyframe.
    pub keyframe: bool,
}

/// Where a demuxer should go for a seek.
#[derive(Debug, Clone, Copy, PartialEq, Eq, Structural)]
pub struct ResolvedDemuxSeekTarget {
    /// Position to start from.
    pub position: MediaTime,
    /// Place in the source, where it is known.
    pub byte_offset: Option<u64>,
}

/// How far the index has come.
#[derive(Debug, Clone, Copy, PartialEq, Eq, Structural)]
pub struct IndexProgressSnapshot {
    /// Latest position in the index.
    pub indexed_until: Option<MediaTime>,
    /// Length of the media.
    pub duration: Option<MediaDuration>,
    /// Number of entries.
    pub entries: u64,
    /// Whether the end was reached.
    pub complete: bool,
}

/// The last seek.
#[derive(Debug, Clone, Copy, PartialEq, Eq, Structural)]
pub struct SeekAccessDiagnostics {
    /// How long it took.
    pub last_seek_latency: Option<Duration>,
    /// Where it should go.
    pub last_seek_target: Option<MediaTime>,
    /// Where it went.
    pub last_seek_actual: Option<MediaTime>,
}

/// What the index shows of itself.
#[derive(Debug, Clone, Copy, PartialEq, Eq, Structural)]
pub struct IndexDiagnostics {
    /// How far the index has come.
    pub progress: IndexProgressSnapshot,
    /// Whether it is paused.
    pub paused: bool,
    /// Why it is paused.
    pub pause_reason: Option<IndexPauseReason>,
    /// Cache hits of the source.
    pub cache_hits: u64,
    /// Cache misses of the source.
    pub cache_misses: u64,
    /// Range requests of the source.
    pub range_requests: u64,
    /// The last seek.
    pub seek: SeekAccessDiagnostics,
    /// Updates of a job that is not active.
    pub stale_jobs: u64,
    /// Jobs that were cancelled or superseded.
    pub cancelled_or_superseded_jobs: u64,
    /// Timeouts.
    pub timeouts: u64,
}

/// Progress before the first entry.
pub open spec fn no_progress() -> IndexProgressSnapshot {
    IndexProgressSnapshot { indexed_until: None, duration: None, entries: 0, complete: false }
}

/// Diagnostics before the first seek.
pub open spec fn no_seek() -> SeekAccessDiagnostics {
    SeekAccessDiagnostics {
        last_seek_latency: None,
        last_seek_target: None,
        last_seek_actual: None,
    }
}

/// Diagnostics before the first event.
pub open spec fn no_diagnostics() -> IndexDiagnostics {
    IndexDiagnostics {
        progress: no_progress(),
        paused: false,
        pause_reason: None,
        cache_hits: 0,
        cache_misses: 0,
        range_requests: 0,
        seek: no_seek(),
        stale_jobs: 0,
        cancelled_or_superseded_jobs: 0,
        timeouts: 0,
    }
}

impl Default for IndexProgressSnapshot {
    fn default() -> (r: Self)
        ensures
            r == no_progress(),
    {
        IndexProgressSnapshot { indexed_until: None, duration: None, entries: 0, complete: false }
    }
}

impl Default for SeekAccessDiagnostics {
    fn default() -> (r: Self)
        ensures
            r == no_seek(),
    {
        SeekAccessDiagnostics {
            last_seek_latency: None,
            last_seek_target: None,
            last_seek_actual: None,
        }
    }
}

impl Default for IndexDiagnostics {
    fn default() -> (r: Self)
        ensures
            r == no_diagnostics(),
    {
        IndexDiagnostics {
            progress: IndexProgressSnapshot::default(),
            paused: false,
            pause_reason: None,
            cache_hits: 0,
            cache_misses: 0,
            range_requests: 0,
            seek: SeekAccessDiagnostics::default(),
            stale_jobs: 0,
            cancelled_or_superseded_jobs: 0,
            timeouts: 0,
        }
    }
}

/// A packet that was read during a tick.
#[derive(Debug, Clone, Copy, PartialEq, Eq, Structural)]
pub struct PlayerTickPacket {
    /// Kind of its track.
    pub kind: TrackKind,
    /// Its track.
    pub track_id: TrackId,
    /// Its timestamp.
    pub pts: Duration,
    /// Its place in the source, where it is known.
    pub byte_offset: Option<u64>,
    /// Whether it is a keyframe.
    pub keyframe: bool,
}

/// The latest of the entries' positions.
pub open spec fn is_latest(entries: Seq<BackgroundIndexEntry>, latest: Option<MediaTime>) -> bool {
    match latest {
        None => entries.len() == 0,
        Some(time) => {
            &&& exists|k: int| 0 <= k < entries.len() && (#[trigger] entries[k]).time == time
            &&& forall|i: int| 0 <= i < entries.len() ==> (#[trigger] entries[i]).time@ <= time@
        },
    }
}

/// Whether an entry is a keyframe of a track that does not lie after the target.
pub open spec fn is_candidate(
    entry: BackgroundIndexEntry,
    track_id: TrackId,
    target: MediaTime,
) -> bool {
    entry.track_id == track_id && entry.keyframe && entry.time@ <= target@
}

/// Whether entry `k` is the last of the candidates with the latest position.
pub open spec fn is_nearest_at(
    entries: Seq<BackgroundIndexEntry>,
    track_id: TrackId,
    target: MediaTime,
    k: int,
) -> bool {
    &&& 0 <= k < entries.len()
    &&& is_candidate(entries[k], track_id, target)
    &&& forall|i: int|
        0 <= i < entries.len() && is_candidate(#[trigger] entries[i], track_id, target) ==> {
            &&& entries[i].time@ <= entries[k].time@
            &&& i > k ==> entries[i].time@ < entries[k].time@
        }
}

/// The candidate with the latest position, the last of equals; nothing where there is no
/// candidate.
pub open spec fn nearest(
    entries: Seq<BackgroundIndexEntry>,
    track_id: TrackId,
    target: MediaTime,
) -> Option<BackgroundIndexEntry>
    decreases entries.len(),
{
    if entries.len() == 0 {
        None
    } else {
        let earlier = nearest(entries.drop_last(), track_id, target);
        if is_candidate(entries.last(), track_id, target) && (earlier matches Some(best)
            ==> entries.last().time@ >= best.time@) {
            Some(entries.last())
        } else {
            earlier
        }
    }
}

/// The index of one source.
#[derive(Debug)]
pub struct BackgroundIndexer {
    /// Settings.
    pub config: BackgroundIndexerConfig,
    /// Generation of the active job.
    pub active_generation: u64,
    /// Source of the active job.
    pub active_source_key: Option<String>,
    /// The index.
    pub entries: Vec<BackgroundIndexEntry>,
    /// What the index shows of itself.
    pub diagnostics: IndexDiagnostics,
}

impl Clone for BackgroundIndexer {
    fn clone(&self) -> (r: Self)
        ensures
            r.entries@ == self.entries@,
            r == (BackgroundIndexer { entries: r.entries, ..*self }),
    {
        let entries = self.entries.clone();
        assert(entries@ =~= self.entries@);
        BackgroundIndexer {
            config: self.config,
            active_generation: self.active_generation,
            active_source_key: match &self.active_source_key {
                Some(source_key) => Some(source_key.clone()),
                None => None,
            },
            entries,
            diagnostics: self.diagnostics,
        }
    }
}

impl BackgroundIndexer {
    /// The number of entries is shown, and the latest position while there are any.
    pub open spec fn wf(self) -> bool {
        &&& self.diagnostics.progress.entries == self.entries@.len()
        &&& is_latest(self.entries@, self.diagnostics.progress.indexed_until)
    }

    /// Whether an update belongs to the active job.
    pub open spec fn is_active(self, generation: u64) -> bool {
        generation == self.active_generation && self.active_source_key is Some
    }

    /// An index without a job.
    pub fn new(config: BackgroundIndexerConfig) -> (r: Self)
        ensures
            r.wf(),
            r.config == config,
            r.active_generation == 0,
            r.active_source_key is None,
            r.entries@.len() == 0,
            r.diagnostics == no_diagnostics(),
    {
        BackgroundIndexer {
            config,
            active_generation: 0,
            active_source_key: None,
            entries: Vec::new(),
            diagnostics: IndexDiagnostics::default(),
        }
    }

    /// The settings.
    pub fn config(&self) -> (r: BackgroundIndexerConfig)
        ensures
            r == self.config,
    {
        self.config
    }

    /// The generation of the active job.
    pub fn active_generation(&self) -> (r: u64)
        ensures
            r == self.active_generation,
    {
        self.active_generation
    }

    /// The source of the active job.
    pub fn active_source_key(&self) -> (r: Option<&str>)
        ensures
            r is Some <==> self.active_source_key is Some,
            r matches Some(key) ==> key@ == self.active_source_key->0@,
    {
        match &self.active_source_key {
            Some(key) => Some(key.as_str()),
            None => None,
        }
    }

    /// What the index shows of itself.
    pub fn diagnostics(&self) -> (r: IndexDiagnostics)
        ensures
            r == self.diagnostics,
    {
        self.diagnostics
    }

    /// Starts a job, which supersedes the active one.
    pub fn start_job(
        &mut self,
        source_key: String,
        duration: Option<MediaDuration>,
        initial_entries: Vec<BackgroundIndexEntry>,
    )
        requires
            old(self).wf(),
        ensures
            final(self).wf(),
            final(self).config == old(self).config,
            final(self).active_generation == bumped(old(self).active_generation),
            final(self).active_source_key == Some(source_key),
            final(self).entries == initial_entries,
            final(self).diagnostics == (IndexDiagnostics {
                progress: IndexProgressSnapshot {
                    indexed_until: final(self).diagnostics.progress.indexed_until,
                    duration,
                    entries: initial_entries@.len() as u64,
                    complete: false,
                },
                paused: false,
                pause_reason: None,
                cancelled_or_superseded_jobs: if old(self).active_source_key is Some {
                    bumped(old(self).diagnostics.cancelled_or_superseded_jobs)
                } else {
                    old(self).diagnostics.cancelled_or_superseded_jobs
                },
                ..old(self).diagnostics
            }),
    {
        if self.active_source_key.is_some() {
            self.diagnostics.cancelled_or_superseded_jobs =
                self.diagnostics.cancelled_or_superseded_jobs.saturating_add(1);
        }
        self.active_generation = self.active_generation.saturating_add(1);
        self.active_source_key = Some(source_key);
        let indexed_until = latest_time(&initial_entries);
        self.entries = initial_entries;
        self.diagnostics.progress = IndexProgressSnapshot {
            indexed_until,
            duration,
            entries: self.entries.len() as u64,
            complete: false,
        };
        self.diagnostics.paused = false;
        self.diagnostics.pause_reason = None;
    }

    /// Cancels the active job and forgets its entries.
    pub fn cancel_active_job(&mut self)
        requires
            old(self).wf(),
        ensures
            final(self).wf(),
            final(self).config == old(self).config,
            final(self).active_generation == old(self).active_generation,
            final(self).active_source_key is None,
            final(self).entries@.len() == 0,
            final(self).diagnostics == (IndexDiagnostics {
                progress: no_progress(),
                paused: false,
                pause_reason: None,
                cancelled_or_superseded_jobs: if old(self).active_source_key is Some {
                    bumped(old(self).diagnostics.cancelled_or_superseded_jobs)
                } else {
                    old(self).diagnostics.cancelled_or_superseded_jobs
                },
                ..old(self).diagnostics
            }),
    {
        if self.active_source_key.is_some() {
            self.diagnostics.cancelled_or_superseded_jobs =
                self.diagnostics.cancelled_or_superseded_jobs.saturating_add(1);
        }
        self.active_source_key = None;
        self.entries.clear();
        self.diagnostics.progress = IndexProgressSnapshot::default();
        self.diagnostics.paused = false;
        self.diagnostics.pause_reason = None;
    }

    /// Pauses under any pressure and goes on without.
    pub fn apply_pressure(&mut self, pressure: IndexPressureSnapshot)
        requires
            old(self).wf(),
        ensures
            final(self).wf(),
            *final(self) == (BackgroundIndexer {
                diagnostics: IndexDiagnostics {
                    paused: pressure.reason() is Some,
                    pause_reason: pressure.reason(),
                    ..old(self).diagnostics
                },
                ..*old(self)
            }),
    {
        let pause_reason = pressure.pause_reason();
        self.diagnostics.paused = pause_reason.is_some();
        self.diagnostics.pause_reason = pause_reason;
    }

    /// Adds an entry of the active job. An entry of another job is only counted as stale.
    pub fn record_entry(&mut self, generation: u64, entry: BackgroundIndexEntry)
        requires
            old(self).wf(),
        ensures
            final(self).wf(),
            final(self).config == old(self).config,
            final(self).active_generation == old(self).active_generation,
            final(self).active_source_key == old(self).active_source_key,
            if old(self).is_active(generation) {
                &&& final(self).entries@ == old(self).entries@.push(entry)
                &&& final(self).diagnostics == (IndexDiagnostics {
                    progress: IndexProgressSnapshot {
                        indexed_until: final(self).diagnostics.progress.indexed_until,
                        entries: (old(self).entries@.len() + 1) as u64,
                        ..old(self).diagnostics.progress
                    },
                    ..old(self).diagnostics
                })
            } else {
                &&& final(self).entries@ == old(self).entries@
                &&& final(self).diagnostics == (IndexDiagnostics {
                    stale_jobs: bumped(old(self).diagnostics.stale_jobs),
                    ..old(self).diagnostics
                })
            },
    {
        if generation != self.active_generation || self.active_source_key.is_none() {
            self.diagnostics.stale_jobs = self.diagnostics.stale_jobs.saturating_add(1);
            return;
        }
        let latest = match self.diagnostics.progress.indexed_until {
            Some(time) => if entry.time.0 > time.0 {
                entry.time
            } else {
                time
            },
            None => entry.time,
        };
        self.diagnostics.progress.indexed_until = Some(latest);
        self.entries.push(entry);
        self.diagnostics.progress.entries = self.entries.len() as u64;
        proof {
            lemma_latest_of_push(
                old(self).entries@,
                old(self).diagnostics.progress.indexed_until,
                entry,
                latest,
            );
        }
    }

    /// Adds a video packet of a tick. Packets of other tracks are ignored.
    pub fn record_tick_packet(&mut self, packet: &PlayerTickPacket)
        requires
            old(self).wf(),
        ensures
            final(self).wf(),
            packet.kind !is Video ==> *final(self) == *old(self),
            packet.kind is Video ==> final(self).recorded_packet_of(
                *old(self),
                packet.track_id,
                packet.pts,
                packet.byte_offset,
                packet.keyframe,
            ),
    {
        match packet.kind {
            TrackKind::Video => {
                self.record_video_packet(
                    packet.track_id,
                    packet.pts,
                    packet.byte_offset,
                    packet.keyframe,
                );
            },
            TrackKind::Audio => {},
        }
    }

    /// The index after a video packet: the packet joins the active job, and without a job
    /// nothing happens.
    pub open spec fn recorded_packet_of(
        self,
        before: Self,
        track_id: TrackId,
        pts: Duration,
        byte_offset: Option<u64>,
        keyframe: bool,
    ) -> bool {
        if before.active_source_key is None {
            self == before
        } else {
            &&& self.config == before.config
            &&& self.active_generation == before.active_generation
            &&& self.active_source_key == before.active_source_key
            &&& self.entries@ == before.entries@.push(
                BackgroundIndexEntry { track_id, time: MediaTime(pts), byte_offset, keyframe },
            )
            &&& self.diagnostics == (IndexDiagnostics {
                progress: IndexProgressSnapshot {
                    indexed_until: self.diagnostics.progress.indexed_until,
                    entries: (before.entries@.len() + 1) as u64,
                    ..before.diagnostics.progress
                },
                ..before.diagnostics
            })
        }
    }

    /// Adds a video packet to the active job.
    pub fn record_video_packet(
        &mut self,
        track_id: TrackId,
        pts: Duration,
        byte_offset: Option<u64>,
        keyframe: bool,
    )
        requires
            old(self).wf(),
        ensures
            final(self).wf(),
            final(self).recorded_packet_of(*old(self), track_id, pts, byte_offset, keyframe),
    {
        if self.active_source_key.is_none() {
            return;
        }
        let entry = BackgroundIndexEntry {
            track_id,
            time: MediaTime::from_duration(pts),
            byte_offset,
            keyframe,
        };
        let generation: u64 = self.active_generation;
        self.record_entry(generation, entry);
    }

    /// Marks the active job as complete. Another job is only counted as stale.
    pub fn mark_complete(&mut self, generation: u64)
        requires
            old(self).wf(),
        ensures
            final(self).wf(),
            *final(self) == (BackgroundIndexer {
                diagnostics: if old(self).is_active(generation) {
                    IndexDiagnostics {
                        progress: IndexProgressSnapshot {
                            complete: true,
                            ..old(self).diagnostics.progress
                        },
                        ..old(self).diagnostics
                    }
                } else {
                    IndexDiagnostics {
                        stale_jobs: bumped(old(self).diagnostics.stale_jobs),
                        ..old(self).diagnostics
                    }
                },
                ..*old(self)
            }),
    {
        if generation != self.active_generation || self.active_source_key.is_none() {
            self.diagnostics.stale_jobs = self.diagnostics.stale_jobs.saturating_add(1);
            return;
        }
        self.diagnostics.progress.complete = true;
    }

    /// Takes the cache counters of the source.
    pub fn update_cache_counters(&mut self, hits: u64, misses: u64)
        requires
            old(self).wf(),
        ensures
            final(self).wf(),
            *final(self) == (BackgroundIndexer {
                diagnostics: IndexDiagnostics {
                    cache_hits: hits,
                    cache_misses: misses,
                    ..old(self).diagnostics
                },
                ..*old(self)
            }),
    {
        self.diagnostics.cache_hits = hits;
        self.diagnostics.cache_misses = misses;
    }

    /// Takes the range counters of the source.
    pub fn update_range_counters(&mut self, range_requests: u64, timeouts: u64)
        requires
            old(self).wf(),
        ensures
            final(self).wf(),
            *final(self) == (BackgroundIndexer {
                diagnostics: IndexDiagnostics { range_requests, timeouts, ..old(self).diagnostics },
                ..*old(self)
            }),
    {
        self.diagnostics.range_requests = range_requests;
        self.diagnostics.timeouts = timeouts;
    }

    /// Remembers a seek.
    pub fn note_seek_completed(&mut self, latency: Duration, target: MediaTime, actual: MediaTime)
        requires
            old(self).wf(),
        ensures
            final(self).wf(),
            *final(self) == (BackgroundIndexer {
                diagnostics: IndexDiagnostics {
                    seek: SeekAccessDiagnostics {
                        last_seek_latency: Some(latency),
                        last_seek_target: Some(target),
                        last_seek_actual: Some(actual),
                    },
                    ..old(self).diagnostics
                },
                ..*old(self)
            }),
    {
        self.diagnostics.seek = SeekAccessDiagnostics {
            last_seek_latency: Some(latency),
            last_seek_target: Some(target),
            last_seek_actual: Some(actual),
        };
    }

    /// Counts a timeout.
    pub fn note_timeout(&mut self)
        requires
            old(self).wf(),
        ensures
            final(self).wf(),
            *final(self) == (BackgroundIndexer {
                diagnostics: IndexDiagnostics {
                    timeouts: bumped(old(self).diagnostics.timeouts),
                    ..old(self).diagnostics
                },
                ..*old(self)
            }),
    {
        self.diagnostics.timeouts = self.diagnostics.timeouts.saturating_add(1);
    }

    /// The position of the nearest keyframe of a track that does not lie after the target.
    pub fn nearest_keyframe_before(&self, track_id: TrackId, target: MediaTime) -> (r: Option<
        MediaTime,
    >)
        ensures
            r == match nearest(self.entries@, track_id, target) {
                Some(entry) => Some(entry.time),
                None => None,
            },
    {
        match self.nearest_keyframe_entry_before(track_id, target) {
            Some(entry) => Some(entry.time),
            None => None,
        }
    }

    /// The nearest keyframe of a track that does not lie after the target. Of keyframes with
    /// the same position it is the one that was added last.
    pub fn nearest_keyframe_entry_before(&self, track_id: TrackId, target: MediaTime) -> (r: Option<
        &BackgroundIndexEntry,
    >)
        ensures
            r is Some <==> nearest(self.entries@, track_id, target) is Some,
            r matches Some(entry) ==> *entry == nearest(self.entries@, track_id, target)->0,
    {
        let mut best: Option<usize> = None;
        let mut index: usize = 0;
        while index < self.entries.len()
            invariant
                index <= self.entries@.len(),
                best matches Some(k) ==> k < index,
                nearest(self.entries@.take(index as int), track_id, target) == match best {
                    Some(k) => Some(self.entries@[k as int]),
                    None => None,
                },
            decreases self.entries@.len() - index,
        {
            proof {
                let prefix = self.entries@.take(index + 1);
                assert(prefix.drop_last() =~= self.entries@.take(index as int));
                assert(prefix.last() == self.entries@[index as int]);
            }
            let entry = self.entries[index];
            if entry.track_id == track_id && entry.keyframe && entry.time.0 <= target.0 {
                let is_nearer = match best {
                    Some(k) => entry.time.0 >= self.entries[k].time.0,
                    None => true,
                };
                if is_nearer {
                    best = Some(index);
                }
            }
            index = index + 1;
        }
        proof {
            assert(self.entries@.take(index as int) =~= self.entries@);
        }
        match best {
            Some(k) => Some(&self.entries[k]),
            None => None,
        }
    }

    /// The position a demuxer should go to.
    pub open spec fn demux_target(
        self,
        mode: SeekMode,
        track_id: Option<TrackId>,
        target: MediaTime,
    ) -> ResolvedDemuxSeekTarget {
        let found = match track_id {
            Some(track_id) => nearest(self.entries@, track_id, target),
            None => None,
        };
        if mode is KeyframeBefore && found is Some {
            ResolvedDemuxSeekTarget {
                position: found->0.time,
                byte_offset: found->0.byte_offset,
            }
        } else {
            ResolvedDemuxSeekTarget { position: target, byte_offset: None }
        }
    }

    /// The position a demuxer should go to: the nearest keyframe where one is asked for and
    /// known, and otherwise the target itself.
    pub fn resolve_demux_seek_target(
        &self,
        mode: SeekMode,
        track_id: Option<TrackId>,
        target: MediaTime,
    ) -> (r: MediaTime)
        ensures
            r == self.demux_target(mode, track_id, target).position,
    {
        self.resolve_demux_seek_target_with_hint(mode, track_id, target).position
    }

    /// The position a demuxer should go to, with its place in the source where the index knows
    /// it.
    pub fn resolve_demux_seek_target_with_hint(
        &self,
        mode: SeekMode,
        track_id: Option<TrackId>,
        target: MediaTime,
    ) -> (r: ResolvedDemuxSeekTarget)
        ensures
            r == self.demux_target(mode, track_id, target),
    {
        if let SeekMode::KeyframeBefore = mode {
            if let Some(track_id) = track_id {
                if let Some(entry) = self.nearest_keyframe_entry_before(track_id, target) {
                    return ResolvedDemuxSeekTarget {
                        position: entry.time,
                        byte_offset: entry.byte_offset,
                    };
                }
            }
        }
        ResolvedDemuxSeekTarget { position: target, byte_offset: None }
    }
}

/// The latest of the entries' positions.
fn latest_time(entries: &Vec<BackgroundIndexEntry>) -> (r: Option<MediaTime>)
    ensures
        is_latest(entries@, r),
{
    let mut latest: Option<MediaTime> = None;
    let mut index: usize = 0;
    while index < entries.len()
        invariant
            index <= entries@.len(),
            is_latest(entries@.take(index as int), latest),
        decreases entries@.len() - index,
    {
        let entry = entries[index];
        let time = entry.time;
        let later = match latest {
            Some(known) => if time.0 > known.0 {
                time
            } else {
                known
            },
            None => time,
        };
        proof {
            assert(entries@.take(index + 1) =~= entries@.take(index as int).push(entry));
            lemma_latest_of_push(entries@.take(index as int), latest, entry, later);
        }
        latest = Some(later);
        index = index + 1;
    }
    proof {
        assert(entries@.take(index as int) =~= entries@);
    }
    latest
}

proof fn lemma_latest_of_push(
    entries: Seq<BackgroundIndexEntry>,
    latest: Option<MediaTime>,
    entry: BackgroundIndexEntry,
    later: MediaTime,
)
    requires
        is_latest(entries, latest),
        later == match latest {
            Some(known) => if entry.time@ > known@ {
                entry.time
            } else {
                known
            },
            None => entry.time,
        },
    ensures
        is_latest(entries.push(entry), Some(later)),
{
    let grown = entries.push(entry);
    assert(grown[entries.len() as int] == entry);
    if latest is Some && later == latest->0 {
        let k = choose|k: int| 0 <= k < entries.len() && (#[trigger] entries[k]).time == latest->0;
        assert(grown[k].time == later);
    }
    assert forall|i: int| 0 <= i < grown.len() implies (#[trigger] grown[i]).time@ <= later@ by {
        if i < entries.len() {
            assert(grown[i] == entries[i]);
        }
    }
}

/// The nearest keyframe is a keyframe of the track that does not lie after the target, no other
/// such keyframe lies after it, and it is found whenever there is one.
pub proof fn law_nearest_keyframe_is_the_latest_before_the_target(
    entries: Seq<BackgroundIndexEntry>,
    track_id: TrackId,
    target: MediaTime,
)
    ensures
        match nearest(entries, track_id, target) {
            Some(entry) => exists|k: int|
                #[trigger] is_nearest_at(entries, track_id, target, k) && entries[k] == entry,
            None => forall|i: int|
                0 <= i < entries.len() ==> !is_candidate(#[trigger] entries[i], track_id, target),
        },
    decreases entries.len(),
{
    if entries.len() > 0 {
        let shorter = entries.drop_last();
        let last = entries.len() - 1;
        law_nearest_keyframe_is_the_latest_before_the_target(shorter, track_id, target);
        assert forall|i: int| 0 <= i < shorter.len() implies #[trigger] entries[i]
            == shorter[i] by {}
        if let Some(best) = nearest(shorter, track_id, target) {
            let k = choose|k: int|
                #[trigger] is_nearest_at(shorter, track_id, target, k) && shorter[k] == best;
            if nearest(entries, track_id, target) == Some(best) && !(is_candidate(
                entries.last(),
                track_id,
                target,
            ) && entries.last().time@ >= best.time@) {
                assert(is_nearest_at(entries, track_id, target, k));
            } else {
                assert(is_nearest_at(entries, track_id, target, last));
            }
        } else if is_candidate(entries.last(), track_id, target) {
            assert(is_nearest_at(entries, track_id, target, last));
        }
    }
}

/// A demuxer is never sent beyond the target.
pub proof fn law_demux_target_does_not_lie_after_the_target(
    indexer: BackgroundIndexer,
    mode: SeekMode,
    track_id: Option<TrackId>,
    target: MediaTime,
)
    ensures
        indexer.demux_target(mode, track_id, target).position@ <= target@,
{
    if let Some(track_id) = track_id {
        law_nearest_keyframe_is_the_latest_before_the_target(indexer.entries@, track_id, target);
    }
}

/// Only a seek to the keyframe before consults the index: in every other mode, and without a track,
/// the demuxer goes to the target itself, without a place in the source. A seek to the keyframe
/// before goes to a keyframe of the track in the index that does not lie after the target, with
/// its place, and no such keyframe lies later; where there is none it goes to the target.
pub proof fn law_only_a_seek_to_the_keyframe_before_uses_the_index(
    indexer: BackgroundIndexer,
    mode: SeekMode,
    track: Option<TrackId>,
    target: MediaTime,
    resolved: ResolvedDemuxSeekTarget,
    position: MediaTime,
)
    requires
        call_ensures(
            BackgroundIndexer::resolve_demux_seek_target_with_hint,
            (&indexer, mode, track, target),
            resolved,
        ),
        call_ensures(
            BackgroundIndexer::resolve_demux_seek_target,
            (&indexer, mode, track, target),
            position,
        ),
    ensures
        position == resolved.position,
        mode != SeekMode::KeyframeBefore || track is None ==> resolved.position == target
            && resolved.byte_offset is None,
        mode == SeekMode::KeyframeBefore && track is Some && (forall|i: int|
            0 <= i < indexer.entries@.len() ==> !((#[trigger] indexer.entries@[i]).track_id
                == track->0 && indexer.entries@[i].keyframe && indexer.entries@[i].time@
                <= target@)) ==> resolved.position == target && resolved.byte_offset is None,
        mode == SeekMode::KeyframeBefore && track is Some && (exists|i: int|
            0 <= i < indexer.entries@.len() && (#[trigger] indexer.entries@[i]).track_id == track->0
                && indexer.entries@[i].keyframe && indexer.entries@[i].time@ <= target@) ==> {
            &&& resolved.position@ <= target@
            &&& exists|k: int|
                0 <= k < indexer.entries@.len() && (#[trigger] indexer.entries@[k]).track_id
                    == track->0 && indexer.entries@[k].keyframe && indexer.entries@[k].time
                    == resolved.position && indexer.entries@[k].byte_offset == resolved.byte_offset
            &&& forall|i: int|
                0 <= i < indexer.entries@.len() && (#[trigger] indexer.entries@[i]).track_id
                    == track->0 && indexer.entries@[i].keyframe && indexer.entries@[i].time@
                    <= target@ ==> indexer.entries@[i].time@ <= resolved.position@
        },
{
    if let Some(track_id) = track {
        let entries = indexer.entries@;
        law_nearest_keyframe_is_the_latest_before_the_target(entries, track_id, target);
        assert forall|i: int| 0 <= i < entries.len() implies (is_candidate(
            #[trigger] entries[i],
            track_id,
            target,
        ) <==> entries[i].track_id == track_id && entries[i].keyframe && entries[i].time@
            <= target@) by {}
        if nearest(entries, track_id, target) is Some {
            let k = choose|k: int| #[trigger]
                is_nearest_at(entries, track_id, target, k) && entries[k] == nearest(
                    entries,
                    track_id,
                    target,
                )->0;
            assert(entries[k].track_id == track_id);
        }
    }
}

/// The keyframe that the index finds is one of the track in the index that does not lie after the
/// target, none such lies later, and of those at its position it was added last. One is found
/// exactly where there is one.
pub proof fn law_nearest_keyframe_is_found(
    indexer: BackgroundIndexer,
    track_id: TrackId,
    target: MediaTime,
    found: Option<&BackgroundIndexEntry>,
    time: Option<MediaTime>,
)
    requires
        call_ensures(
            BackgroundIndexer::nearest_keyframe_entry_before,
            (&indexer, track_id, target),
            found,
        ),
        call_ensures(
            BackgroundIndexer::nearest_keyframe_before,
            (&indexer, track_id, target),
            time,
        ),
    ensures
        found is Some <==> exists|i: int|
            0 <= i < indexer.entries@.len() && (#[trigger] indexer.entries@[i]).track_id == track_id
                && indexer.entries@[i].keyframe && indexer.entries@[i].time@ <= target@,
        time is Some <==> found is Some,
        found matches Some(entry) ==> {
            &&& time == Some(entry.time)
            &&& entry.track_id == track_id && entry.keyframe && entry.time@ <= target@
            &&& exists|k: int|
                0 <= k < indexer.entries@.len() && #[trigger] indexer.entries@[k] == *entry
                    && forall|i: int|
                    0 <= i < indexer.entries@.len() && (#[trigger] indexer.entries@[i]).track_id
                        == track_id && indexer.entries@[i].keyframe && indexer.entries@[i].time@
                        <= target@ ==> indexer.entries@[i].time@ <= entry.time@ && (i > k
                        ==> indexer.entries@[i].time@ < entry.time@)
        },
{
    let entries = indexer.entries@;
    law_nearest_keyframe_is_the_latest_before_the_target(entries, track_id, target);
    assert forall|i: int| 0 <= i < entries.len() implies (is_candidate(
        #[trigger] entries[i],
        track_id,
        target,
    ) <==> entries[i].track_id == track_id && entries[i].keyframe && entries[i].time@
        <= target@) by {}
    if nearest(entries, track_id, target) is Some {
        let k = choose|k: int| #[trigger]
            is_nearest_at(entries, track_id, target, k) && entries[k] == nearest(
                entries,
                track_id,
                target,
            )->0;
        assert(entries[k] == *found->0);
    }
}

/// An entry that was recorded for the active job is found again by a seek to it: it joins the
/// index behind the others, which stay. An entry of another job, or without a job, changes nothing
/// but the number of stale ones.
pub proof fn law_recorded_entry_joins_the_index(
    before: BackgroundIndexer,
    after: BackgroundIndexer,
    generation: u64,
    entry: BackgroundIndexEntry,
    found: Option<&BackgroundIndexEntry>,
)
    requires
        exists|indexer: &mut BackgroundIndexer|
            *indexer == before && *final(indexer) == after && #[trigger] call_ensures(
                BackgroundIndexer::record_entry,
                (indexer, generation, entry),
                (),
            ),
        call_ensures(
            BackgroundIndexer::nearest_keyframe_entry_before,
            (&after, entry.track_id, entry.time),
            found,
        ),
    ensures
        after.active_generation == before.active_generation,
        after.active_source_key == before.active_source_key,
        generation == before.active_generation && before.active_source_key is Some ==> {
            &&& after.entries@ == before.entries@.push(entry)
            &&& after.diagnostics.progress.entries == after.entries@.len() as u64
            &&& after.diagnostics.stale_jobs == before.diagnostics.stale_jobs
            &&& entry.keyframe ==> found is Some && *found->0 == entry
        },
        generation != before.active_generation || before.active_source_key is None ==> {
            &&& after.entries@ == before.entries@
            &&& after.diagnostics.progress == before.diagnostics.progress
            &&& before.diagnostics.stale_jobs < u64::MAX ==> after.diagnostics.stale_jobs
                == before.diagnostics.stale_jobs + 1
        },
{
    if generation == before.active_generation && before.active_source_key is Some {
        assert(after.entries@.drop_last() =~= before.entries@);
        law_nearest_keyframe_is_the_latest_before_the_target(
            before.entries@,
            entry.track_id,
            entry.time,
        );
    }
}

/// What is shown as the indexed position is that of an entry, and no entry lies later. It never
/// goes back while a job runs.
pub proof fn law_indexed_position_is_the_latest(indexer: BackgroundIndexer)
    requires
        indexer.wf(),
    ensures
        indexer.entries@.len() == 0 <==> indexer.diagnostics.progress.indexed_until is None,
        indexer.diagnostics.progress.indexed_until matches Some(latest) ==> {
            &&& exists|k: int|
                0 <= k < indexer.entries@.len() && (#[trigger] indexer.entries@[k]).time == latest
            &&& forall|i: int|
                0 <= i < indexer.entries@.len() ==> (#[trigger] indexer.entries@[i]).time@
                    <= latest@
        },
        indexer.diagnostics.progress.entries == indexer.entries@.len(),
{
}

/// A packet of a tick joins the index exactly where it is one of a video track and a job is active,
/// with its own track, timestamp, place and keyframe mark.
pub proof fn law_video_packets_of_a_tick_join_the_index(
    before: BackgroundIndexer,
    after: BackgroundIndexer,
    packet: PlayerTickPacket,
)
    requires
        exists|indexer: &mut BackgroundIndexer|
            *indexer == before && *final(indexer) == after && #[trigger] call_ensures(
                BackgroundIndexer::record_tick_packet,
                (indexer, &packet),
                (),
            ),
    ensures
        packet.kind is Video && before.active_source_key is Some ==> {
            &&& after.entries@.len() == before.entries@.len() + 1
            &&& after.entries@.drop_last() == before.entries@
            &&& after.entries@.last().track_id == packet.track_id
            &&& after.entries@.last().time.0 == packet.pts
            &&& after.entries@.last().byte_offset == packet.byte_offset
            &&& after.entries@.last().keyframe == packet.keyframe
        },
        packet.kind is Audio || before.active_source_key is None ==> after == before,
{
    assert(after.entries@ != before.entries@ ==> after.entries@.drop_last() =~= before.entries@);
    if packet.kind is Video && before.active_source_key is Some {
        assert(after.entries@.drop_last() =~= before.entries@);
    }
}

/// A new job supersedes the former one: entries of the former job are stale from then on, while
/// the new generation is the next one, and the new job starts with its own entries. A job that is
/// cancelled takes its entries with it and accepts none any more.
pub proof fn law_new_job_supersedes_the_former_one(
    before: BackgroundIndexer,
    started: BackgroundIndexer,
    cancelled: BackgroundIndexer,
    source_key: String,
    duration: Option<MediaDuration>,
    initial: Vec<BackgroundIndexEntry>,
)
    requires
        exists|indexer: &mut BackgroundIndexer|
            *indexer == before && *final(indexer) == started && #[trigger] call_ensures(
                BackgroundIndexer::start_job,
                (indexer, source_key, duration, initial),
                (),
            ),
        exists|indexer: &mut BackgroundIndexer|
            *indexer == before && *final(indexer) == cancelled && #[trigger] call_ensures(
                BackgroundIndexer::cancel_active_job,
                (indexer,),
                (),
            ),
        before.active_generation < u64::MAX,
        before.diagnostics.cancelled_or_superseded_jobs < u64::MAX,
    ensures
        started.active_generation == before.active_generation + 1,
        started.active_source_key == Some(source_key),
        started.entries@ == initial@,
        started.diagnostics.progress.duration == duration,
        !started.diagnostics.progress.complete && !started.diagnostics.paused,
        cancelled.active_source_key is None && cancelled.entries@.len() == 0,
        cancelled.diagnostics.progress.indexed_until is None,
        before.active_source_key is Some ==> {
            &&& started.diagnostics.cancelled_or_superseded_jobs
                == before.diagnostics.cancelled_or_superseded_jobs + 1
            &&& cancelled.diagnostics.cancelled_or_superseded_jobs
                == before.diagnostics.cancelled_or_superseded_jobs + 1
        },
        before.active_source_key is None ==> {
            &&& started.diagnostics.cancelled_or_superseded_jobs
                == before.diagnostics.cancelled_or_superseded_jobs
            &&& cancelled.diagnostics.cancelled_or_superseded_jobs
                == before.diagnostics.cancelled_or_superseded_jobs
        },
{
}

/// Indexing pauses exactly under pressure. Of several pressures the end of the session is named
/// first, then scrubbing, then a low buffer, then load.
pub proof fn law_indexing_pauses_under_pressure(
    before: BackgroundIndexer,
    after: BackgroundIndexer,
    pressure: IndexPressureSnapshot,
)
    requires
        exists|indexer: &mut BackgroundIndexer|
            *indexer == before && *final(indexer) == after && #[trigger] call_ensures(
                BackgroundIndexer::apply_pressure,
                (indexer, pressure),
                (),
            ),
    ensures
        after.entries == before.entries,
        after.diagnostics.paused <==> pressure.shutdown_requested || pressure.active_scrub
            || pressure.low_playback_buffer || pressure.high_decode_render_load,
        after.diagnostics.pause_reason is None <==> !after.diagnostics.paused,
        after.diagnostics.pause_reason == Some(IndexPauseReason::Shutdown)
            <==> pressure.shutdown_requested,
        after.diagnostics.pause_reason == Some(IndexPauseReason::ActiveScrub)
            <==> pressure.active_scrub && !pressure.shutdown_requested,
        after.diagnostics.pause_reason == Some(IndexPauseReason::LowPlaybackBuffer)
            <==> pressure.low_playback_buffer && !pressure.active_scrub
            && !pressure.shutdown_requested,
{
}

/// The budget is as many bytes a second as the mebibytes are, or the largest that can be counted.
pub proof fn law_budget_is_counted_in_bytes(megabytes: u64, config: BackgroundIndexerConfig)
    requires
        call_ensures(BackgroundIndexerConfig::from_network_config, (megabytes,), config),
    ensures
        megabytes * 1_048_576 <= 0xFFFF_FFFF_FFFF_FFFF ==> config.io_budget_bytes_per_sec
            == megabytes * 1_048_576,
        megabytes * 1_048_576 > 0xFFFF_FFFF_FFFF_FFFF ==> config.io_budget_bytes_per_sec
            == 0xFFFF_FFFF_FFFF_FFFF,
{
}

/// An index is complete once its active job is reported complete; a report of another job, or
/// without a job, counts as stale and completes nothing.
pub proof fn law_only_the_active_job_completes_the_index(
    before: BackgroundIndexer,
    after: BackgroundIndexer,
    generation: u64,
)
    requires
        before.diagnostics.stale_jobs < u64::MAX,
        exists|indexer: &mut BackgroundIndexer|
            *indexer == before && *final(indexer) == after && #[trigger] call_ensures(
                BackgroundIndexer::mark_complete,
                (indexer, generation),
                (),
            ),
    ensures
        after.entries == before.entries,
        after.active_generation == before.active_generation,
        after.active_source_key == before.active_source_key,
        generation == before.active_generation && before.active_source_key is Some ==> {
            &&& after.diagnostics.progress.complete
            &&& after.diagnostics.stale_jobs == before.diagnostics.stale_jobs
            &&& after.diagnostics.progress.indexed_until
                == before.diagnostics.progress.indexed_until
        },
        generation != before.active_generation || before.active_source_key is None ==> {
            &&& after.diagnostics.progress == before.diagnostics.progress
            &&& after.diagnostics.stale_jobs == before.diagnostics.stale_jobs + 1
        },
{
}

/// A new index has no job and no entry, and has counted nothing. A job that was cancelled leaves no
/// progress behind, and its generation stays taken.
pub proof fn law_new_index_is_empty(
    config: BackgroundIndexerConfig,
    made: BackgroundIndexer,
    before: BackgroundIndexer,
    cancelled: BackgroundIndexer,
    shown: IndexDiagnostics,
)
    requires
        call_ensures(BackgroundIndexer::new, (config,), made),
        call_ensures(BackgroundIndexer::diagnostics, (&made,), shown),
        exists|indexer: &mut BackgroundIndexer|
            *indexer == before && *final(indexer) == cancelled && #[trigger] call_ensures(
                BackgroundIndexer::cancel_active_job,
                (indexer,),
                (),
            ),
    ensures
        made.entries@.len() == 0 && made.active_source_key is None && made.active_generation == 0,
        made.config == config,
        shown.progress.entries == 0 && shown.progress.indexed_until is None && !shown.progress.complete,
        shown.progress.duration is None,
        !shown.paused && shown.pause_reason is None,
        shown.cache_hits == 0 && shown.cache_misses == 0 && shown.range_requests == 0,
        shown.stale_jobs == 0 && shown.cancelled_or_superseded_jobs == 0 && shown.timeouts == 0,
        shown.seek.last_seek_target is None && shown.seek.last_seek_actual is None
            && shown.seek.last_seek_latency is None,
        cancelled.diagnostics.progress.entries == 0 && !cancelled.diagnostics.progress.complete,
        cancelled.diagnostics.progress.duration is None && !cancelled.diagnostics.paused,
        cancelled.active_generation == before.active_generation,
{
}

} // verus!
