//! The command surface: join, leave, enqueue, skip, set-volume, list, and
//! the track-completion handling, each entering through the session registry
//! and never touching any other tenant's state. The surrounding program owns
//! the transports: it resolves queries, opens and closes voice connections,
//! mirrors volume writes to the durable store, and delivers completion
//! events; this type decides everything else.

use vstd::prelude::*;

use crate::config::VolumeStore;
use crate::errors::CommandError;
use crate::playlist::PlaylistEntry;
use crate::registry::GuildSessionRegistry;
use crate::track::{track_repr, track_wf, Track, DEFAULT_VOLUME, MAX_VOLUME};

verus! {

/// The per-tenant playback orchestrator: the live sessions, the stored
/// volumes, and the continuation policy.
pub struct Orchestrator {
    /// Every live session, at most one per tenant.
    pub registry: GuildSessionRegistry,
    /// Every tenant's stored volume; mirrored to the durable store by the
    /// surrounding program.
    pub volumes: VolumeStore,
    /// Whether a playlist-continuation track is spliced directly behind the
    /// playing entry, jumping tracks enqueued ad hoc in the interim, rather
    /// than appended at the tail. The reference behavior is to jump.
    pub playlist_jumps_queue: bool,
}

impl Orchestrator {
    /// Both stores are well formed.
    pub open spec fn wf(&self) -> bool {
        self.registry.wf() && self.volumes.wf()
    }

    /// Whether `t` has a live session.
    pub open spec fn has_session(&self, t: u64) -> bool {
        self.registry.has_session(t)
    }

    /// `t`'s queue; meaningful only when `has_session(t)`.
    pub open spec fn session_queue(&self, t: u64) -> Seq<Track> {
        self.registry.session(t).queue@
    }

    /// `t`'s parked playlist entries, if a playlist is parked; meaningful
    /// only when `has_session(t)`.
    pub open spec fn session_pending(&self, t: u64) -> Option<Seq<PlaylistEntry>> {
        self.registry.session(t).pending_view()
    }

    /// The channel `t`'s session is bound to; meaningful only when
    /// `has_session(t)`.
    pub open spec fn session_channel(&self, t: u64) -> u64 {
        self.registry.session(t).channel
    }

    /// How many sessions are live, over all tenants.
    pub open spec fn session_count(&self) -> nat {
        self.registry@.len()
    }

    /// The volume `t` plays at: the stored one, or the default.
    pub open spec fn volume_of(&self, t: u64) -> u32 {
        self.volumes.spec_volume(t)
    }

    /// Every tenant other than `t` keeps its session (or its absence), that
    /// session's whole state, and its stored volume.
    pub open spec fn others_untouched(pre: Orchestrator, post: Orchestrator, t: u64) -> bool {
        &&& GuildSessionRegistry::others_unchanged(pre.registry, post.registry, t)
        &&& forall|u: u64|
            #![trigger pre.volume_of(u)]
            #![trigger post.volume_of(u)]
            u != t ==> post.volume_of(u) == pre.volume_of(u)
    }

    /// A fresh orchestrator: no sessions, every tenant at the default
    /// volume, with the given continuation policy.
    pub fn new(playlist_jumps_queue: bool) -> (r: Orchestrator)
        ensures
            r.wf(),
            r.session_count() == 0,
            forall|u: u64| !r.has_session(u),
            forall|u: u64| #[trigger] r.volume_of(u) == DEFAULT_VOLUME,
            r.playlist_jumps_queue == playlist_jumps_queue,
    {
        Orchestrator {
            registry: GuildSessionRegistry::new(),
            volumes: VolumeStore::new(),
            playlist_jumps_queue,
        }
    }

    /// Joins `t` to `channel`: locates or creates the session, idempotently.
    /// Says whether a session was created.
    pub fn join(&mut self, t: u64, channel: u64) -> (created: bool)
        requires
            old(self).wf(),
        ensures
            final(self).wf(),
            final(self).has_session(t),
            created == !old(self).has_session(t),
            !created ==> *final(self) == *old(self),
            created ==> {
                &&& final(self).session_count() == old(self).session_count() + 1
                &&& final(self).session_channel(t) == channel
                &&& final(self).session_queue(t) == Seq::<Track>::empty()
                &&& final(self).session_pending(t) is None
            },
            final(self).volumes == old(self).volumes,
            final(self).playlist_jumps_queue == old(self).playlist_jumps_queue,
            Orchestrator::others_untouched(*old(self), *final(self), t),
    {
        self.registry.get_or_create(t, channel)
    }

    /// Leaves `t`'s voice channel: tears the session down and discards it,
    /// parked playlist included. Reports, without changing anything, when
    /// the tenant has none.
    pub fn leave(&mut self, t: u64) -> (r: Result<(), CommandError>)
        requires
            old(self).wf(),
        ensures
            final(self).wf(),
            match r {
                Ok(()) => {
                    &&& old(self).has_session(t)
                    &&& !final(self).has_session(t)
                    &&& final(self).session_count() == old(self).session_count() - 1
                },
                Err(e) => {
                    &&& e is NoActiveSession
                    &&& !old(self).has_session(t)
                    &&& *final(self) == *old(self)
                },
            },
            final(self).volumes == old(self).volumes,
            final(self).playlist_jumps_queue == old(self).playlist_jumps_queue,
            Orchestrator::others_untouched(*old(self), *final(self), t),
    {
        self.registry.remove(t)
    }

    /// Builds a track from resolved metadata: its volume is read from `t`'s
    /// stored volume at creation time, so stored changes reach every track
    /// created later and none created earlier.
    pub fn create_track(
        &self,
        t: u64,
        title: Option<String>,
        source_url: String,
        thumbnail: Option<String>,
        handle: u64,
    ) -> (tr: Track)
        requires
            self.wf(),
        ensures
            tr.title == title,
            tr.source_url == source_url,
            tr.thumbnail == thumbnail,
            tr.volume == self.volume_of(t),
            tr.handle == handle,
            track_wf(tr),
    {
        let volume = self.volumes.get_volume(t);
        Track::new(title, source_url, thumbnail, volume, handle)
    }

    /// Everything `enqueue_track` promises of the states before and after
    /// the call, the enqueued track and the returned position.
    pub open spec fn enqueue_track_post(
        pre: Orchestrator,
        post: Orchestrator,
        t: u64,
        channel: u64,
        track: Track,
        pos: usize,
    ) -> bool {
        &&& post.wf()
        &&& post.has_session(t)
        &&& pos == (if pre.has_session(t) {
            pre.session_queue(t).len()
        } else {
            0
        }) + 1
        &&& pre.has_session(t) ==> {
            &&& post.session_count() == pre.session_count()
            &&& post.session_queue(t) == pre.session_queue(t).push(track)
            &&& post.session_pending(t) == pre.session_pending(t)
            &&& post.session_channel(t) == pre.session_channel(t)
        }
        &&& !pre.has_session(t) ==> {
            &&& post.session_count() == pre.session_count() + 1
            &&& post.session_queue(t) == seq![track]
            &&& post.session_pending(t) is None
            &&& post.session_channel(t) == channel
        }
        &&& post.volumes == pre.volumes
        &&& post.playlist_jumps_queue == pre.playlist_jumps_queue
        &&& Orchestrator::others_untouched(pre, post, t)
    }

    /// Enqueues one resolved, non-playlist track for `t`, creating the
    /// session on `channel` when none is live. Returns the track's 1-based
    /// position: the prior queue length plus one.
    pub fn enqueue_track(&mut self, t: u64, channel: u64, track: Track) -> (pos: usize)
        requires
            track_wf(track),
            old(self).wf(),
        ensures
            Orchestrator::enqueue_track_post(*old(self), *final(self), t, channel, track, pos),
    {
        self.registry.enqueue_for(t, channel, track)
    }

    /// Enqueues a playlist for `t`: the already resolved first track goes to
    /// the queue's tail, and the remaining entries, in source order, are
    /// parked for lazy continuation, superseding any playlist parked before.
    /// The session is created on `channel` when none is live. Returns the
    /// first track's 1-based position.
    pub fn enqueue_playlist(
        &mut self,
        t: u64,
        channel: u64,
        first: Track,
        rest: Vec<PlaylistEntry>,
    ) -> (pos: usize)
        requires
            track_wf(first),
            old(self).wf(),
        ensures
            final(self).wf(),
            final(self).has_session(t),
            final(self).session_pending(t) == Some(rest@.reverse()),
            pos == (if old(self).has_session(t) {
                old(self).session_queue(t).len()
            } else {
                0
            }) + 1,
            old(self).has_session(t) ==> {
                &&& final(self).session_count() == old(self).session_count()
                &&& final(self).session_queue(t) == old(self).session_queue(t).push(first)
                &&& final(self).session_channel(t) == old(self).session_channel(t)
            },
            !old(self).has_session(t) ==> {
                &&& final(self).session_count() == old(self).session_count() + 1
                &&& final(self).session_queue(t) == seq![first]
                &&& final(self).session_channel(t) == channel
            },
            final(self).volumes == old(self).volumes,
            final(self).playlist_jumps_queue == old(self).playlist_jumps_queue,
            Orchestrator::others_untouched(*old(self), *final(self), t),
    {
        self.registry.enqueue_playlist_for(t, channel, first, rest)
    }

    /// Everything `on_track_complete` promises of the states before and
    /// after the notification and of the returned directive.
    pub open spec fn complete_post(
        pre: Orchestrator,
        post: Orchestrator,
        t: u64,
        r: Result<Option<PlaylistEntry>, CommandError>,
    ) -> bool {
        &&& post.wf()
        &&& post.volumes == pre.volumes
        &&& post.playlist_jumps_queue == pre.playlist_jumps_queue
        &&& Orchestrator::others_untouched(pre, post, t)
        &&& match r {
            Ok(next) => {
                &&& pre.has_session(t)
                &&& post.has_session(t)
                &&& post.session_count() == pre.session_count()
                &&& post.session_channel(t) == pre.session_channel(t)
                &&& post.session_queue(t) == if pre.session_queue(t).len() > 0 {
                    pre.session_queue(t).drop_first()
                } else {
                    pre.session_queue(t)
                }
                &&& match next {
                    Some(e) => {
                        &&& pre.session_pending(t) matches Some(p) && p.len() > 0 && e == p.last()
                        &&& post.session_pending(t) == Some(
                            pre.session_pending(t).unwrap().drop_last(),
                        )
                    },
                    None => {
                        &&& match pre.session_pending(t) {
                            Some(p) => p.len() == 0,
                            None => true,
                        }
                        &&& post.session_pending(t) == pre.session_pending(t)
                    },
                }
            },
            Err(e) => {
                &&& e is NoActiveSession
                &&& !pre.has_session(t)
                &&& post == pre
            },
        }
    }

    /// Handles one track-completion notification for `t`: the finished front
    /// track leaves the queue, and the next parked entry, if any, comes back
    /// for the surrounding program to resolve and hand to
    /// `continuation_resolved`. An exhausted or absent parked playlist is a
    /// safe terminal no-op. A notification for a tenant with no session is
    /// an unreachable-state error, reported to be absorbed, never shown.
    pub fn on_track_complete(&mut self, t: u64) -> (r: Result<Option<PlaylistEntry>, CommandError>)
        requires
            old(self).wf(),
        ensures
            Orchestrator::complete_post(*old(self), *final(self), t, r),
    {
        self.registry.complete_for(t)
    }

    /// Everything `continuation_resolved` promises of the states before and
    /// after the splice and of its result.
    pub open spec fn continuation_post(
        pre: Orchestrator,
        post: Orchestrator,
        t: u64,
        track: Track,
        r: Result<(), CommandError>,
    ) -> bool {
        &&& post.wf()
        &&& post.volumes == pre.volumes
        &&& post.playlist_jumps_queue == pre.playlist_jumps_queue
        &&& Orchestrator::others_untouched(pre, post, t)
        &&& match r {
            Ok(()) => {
                &&& pre.has_session(t)
                &&& post.has_session(t)
                &&& post.session_count() == pre.session_count()
                &&& post.session_queue(t) == if pre.playlist_jumps_queue {
                    seq![track] + pre.session_queue(t)
                } else {
                    pre.session_queue(t).push(track)
                }
                &&& post.session_pending(t) == pre.session_pending(t)
                &&& post.session_channel(t) == pre.session_channel(t)
            },
            Err(e) => {
                &&& e is NoActiveSession
                &&& !pre.has_session(t)
                &&& post == pre
            },
        }
    }

    /// Splices the freshly resolved continuation track into `t`'s queue,
    /// directly behind the playing entry or at the tail per the policy. A
    /// resolution landing after the session was torn down is discarded: the
    /// error reports it and nothing changes.
    pub fn continuation_resolved(&mut self, t: u64, track: Track) -> (r: Result<
        (),
        CommandError,
    >)
        requires
            track_wf(track),
            old(self).wf(),
        ensures
            Orchestrator::continuation_post(*old(self), *final(self), t, track, r),
    {
        let jump = self.playlist_jumps_queue;
        self.registry.splice_for(t, track, jump)
    }

    /// Everything `skip` promises of the states before and after the call
    /// and of its result.
    pub open spec fn skip_post(
        pre: Orchestrator,
        post: Orchestrator,
        t: u64,
        bypass_playlist: bool,
        r: Result<(Track, Option<PlaylistEntry>), CommandError>,
    ) -> bool {
        &&& post.wf()
        &&& post.volumes == pre.volumes
        &&& post.playlist_jumps_queue == pre.playlist_jumps_queue
        &&& Orchestrator::others_untouched(pre, post, t)
        &&& match r {
            Ok(p) => {
                &&& pre.has_session(t)
                &&& post.has_session(t)
                &&& post.session_count() == pre.session_count()
                &&& pre.session_queue(t).len() > 0
                &&& p.0 == pre.session_queue(t)[0]
                &&& post.session_queue(t) == pre.session_queue(t).drop_first()
                &&& post.session_channel(t) == pre.session_channel(t)
                &&& if bypass_playlist {
                    post.session_pending(t) is None && p.1 is None
                } else {
                    match p.1 {
                        Some(e) => {
                            &&& pre.session_pending(t) matches Some(q) && q.len() > 0 && e
                                == q.last()
                            &&& post.session_pending(t) == Some(
                                pre.session_pending(t).unwrap().drop_last(),
                            )
                        },
                        None => {
                            &&& match pre.session_pending(t) {
                                Some(q) => q.len() == 0,
                                None => true,
                            }
                            &&& post.session_pending(t) == pre.session_pending(t)
                        },
                    }
                }
            },
            Err(e) => {
                &&& post.registry@ == pre.registry@
                &&& match e {
                    CommandError::NoActiveSession => !pre.has_session(t),
                    CommandError::QueueEmpty => pre.has_session(t) && pre.session_queue(t).len()
                        == 0,
                    _ => false,
                }
            },
        }
    }

    /// Skips the front of `t`'s queue and returns the skipped track. With
    /// `bypass_playlist`, the parked playlist is dropped first, permanently
    /// disabling continuation for this session until a new playlist is
    /// enqueued; on an empty queue the command fails with `QueueEmpty` and
    /// drops nothing either: dropping and removal are coupled. Without
    /// `bypass_playlist`, the skip counts as a completion: the next parked
    /// entry, if any, comes back to resolve and splice.
    pub fn skip(&mut self, t: u64, bypass_playlist: bool) -> (r: Result<
        (Track, Option<PlaylistEntry>),
        CommandError,
    >)
        requires
            old(self).wf(),
        ensures
            Orchestrator::skip_post(*old(self), *final(self), t, bypass_playlist, r),
    {
        self.registry.skip_for(t, bypass_playlist)
    }

    /// Sets `t`'s volume from an integer percentage: the value is stored, so
    /// every track created later plays at it, and it is applied live to the
    /// currently playing track's stream only; tracks already queued behind
    /// it keep the volume they were created with. A tenant with no session
    /// is refused and nothing is stored. The surrounding program mirrors the
    /// stored value to the durable store; when that write fails it reports
    /// `PersistenceFailed`, and the live change is deliberately kept.
    pub fn set_volume(&mut self, t: u64, percent: u32) -> (r: Result<(), CommandError>)
        requires
            percent <= MAX_VOLUME,
            old(self).wf(),
        ensures
            final(self).wf(),
            final(self).playlist_jumps_queue == old(self).playlist_jumps_queue,
            Orchestrator::others_untouched(*old(self), *final(self), t),
            match r {
                Ok(()) => {
                    &&& old(self).has_session(t)
                    &&& final(self).has_session(t)
                    &&& final(self).session_count() == old(self).session_count()
                    &&& final(self).volume_of(t) == percent
                    &&& final(self).session_pending(t) == old(self).session_pending(t)
                    &&& final(self).session_channel(t) == old(self).session_channel(t)
                    &&& old(self).session_queue(t).len() == 0 ==> final(self).session_queue(t)
                        == old(self).session_queue(t)
                    &&& old(self).session_queue(t).len() > 0 ==> {
                        &&& final(self).session_queue(t).len() == old(self).session_queue(
                            t,
                        ).len()
                        &&& final(self).session_queue(t)[0].volume == percent
                        &&& final(self).session_queue(t)[0].title == old(self).session_queue(
                            t,
                        )[0].title
                        &&& final(self).session_queue(t)[0].source_url == old(self).session_queue(
                            t,
                        )[0].source_url
                        &&& final(self).session_queue(t)[0].thumbnail == old(self).session_queue(
                            t,
                        )[0].thumbnail
                        &&& final(self).session_queue(t)[0].handle == old(self).session_queue(
                            t,
                        )[0].handle
                        &&& forall|k: int|
                            1 <= k < old(self).session_queue(t).len() ==> final(self).session_queue(
                                t,
                            )[k] == old(self).session_queue(t)[k]
                    }
                },
                Err(e) => {
                    &&& e is NoActiveSession
                    &&& !old(self).has_session(t)
                    &&& *final(self) == *old(self)
                },
            },
    {
        match self.registry.set_live_volume_for(t, percent) {
            Err(e) => Err(e),
            Ok(()) => {
                self.volumes.set_volume(t, percent);
                Ok(())
            },
        }
    }

    /// Makes sure `t` has a stored volume entry, writing the default when
    /// none is held; run when a tenant first appears.
    pub fn ensure_tenant_config(&mut self, t: u64)
        requires
            old(self).wf(),
        ensures
            final(self).wf(),
            final(self).registry == old(self).registry,
            final(self).playlist_jumps_queue == old(self).playlist_jumps_queue,
            final(self).volumes.has_entry(t),
            final(self).volume_of(t) == old(self).volume_of(t),
            forall|u: u64| u != t ==> #[trigger] final(self).volume_of(u) == old(self).volume_of(u),
    {
        self.volumes.ensure_entry(t)
    }

    /// What is playing for `t` now: a copy of the queue's front track.
    pub fn now_playing(&self, t: u64) -> (r: Result<Option<Track>, CommandError>)
        ensures
            match r {
                Ok(opt) => self.has_session(t) && match opt {
                    Some(tr) => self.session_queue(t).len() > 0 && track_repr(tr) == track_repr(
                        self.session_queue(t)[0],
                    ),
                    None => self.session_queue(t).len() == 0,
                },
                Err(e) => e is NoActiveSession && !self.has_session(t),
            },
    {
        self.registry.current_for(t)
    }

    /// Up to `limit` entries of `t`'s queue, in order, copied for display;
    /// the caller's presentation layer labels the front one distinctly.
    pub fn list_queue(&self, t: u64, limit: usize) -> (r: Result<Vec<Track>, CommandError>)
        ensures
            match r {
                Ok(v) => {
                    &&& self.has_session(t)
                    &&& v@.len() == if limit < self.session_queue(t).len() {
                        limit as int
                    } else {
                        self.session_queue(t).len() as int
                    }
                    &&& forall|k: int|
                        0 <= k < v@.len() ==> track_repr(#[trigger] v@[k]) == track_repr(
                            self.session_queue(t)[k],
                        )
                },
                Err(e) => e is NoActiveSession && !self.has_session(t),
            },
    {
        self.registry.snapshot_for(t, limit)
    }
}

/// Whether a voice-state change calls for automatic teardown of the
/// channel's session: the change must come from a member who had prior voice
/// state, must have left rather than moved within voice, and must leave no
/// human member behind.
pub fn should_teardown(had_prior_state: bool, still_in_channel: bool, human_members: usize) -> (r:
    bool)
    ensures
        r == (had_prior_state && !still_in_channel && human_members == 0),
{
    had_prior_state && !still_in_channel && human_members == 0
}

} // verus!
