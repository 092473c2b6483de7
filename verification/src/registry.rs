//! The process-wide map from tenant to live session, enforcing at most one
//! session per tenant. Commands enter here: the registry locates or creates
//! the tenant's session and changes nothing of any other tenant's.

use vstd::prelude::*;

use crate::errors::CommandError;
use crate::playlist::PlaylistEntry;
use crate::session::VoiceSession;
use crate::track::{track_repr, track_wf, Track, MAX_VOLUME};

verus! {

/// The index of the first session for `t`, or -1 when none is held.
pub open spec fn find_session(s: Seq<VoiceSession>, t: u64) -> int
    decreases s.len(),
{
    if s.len() == 0 {
        -1
    } else if s[0].tenant == t {
        0
    } else {
        let r = find_session(s.drop_first(), t);
        if r == -1 {
            -1
        } else {
            r + 1
        }
    }
}

/// `find_session` finds a session for `t` exactly when one is held, and then
/// the first one.
pub proof fn lemma_find_session_props(s: Seq<VoiceSession>, t: u64)
    ensures
        find_session(s, t) == -1 ==> forall|i: int| 0 <= i < s.len() ==> s[i].tenant != t,
        find_session(s, t) != -1 ==> {
            &&& 0 <= find_session(s, t) < s.len()
            &&& s[find_session(s, t)].tenant == t
            &&& forall|i: int| 0 <= i < find_session(s, t) ==> s[i].tenant != t
        },
    decreases s.len(),
{
    if s.len() > 0 && s[0].tenant != t {
        lemma_find_session_props(s.drop_first(), t);
        assert forall|i: int| 1 <= i < s.len() implies s[i] == s.drop_first()[i - 1] by {}
    }
}

/// Two stores whose sessions serve the same tenants position-by-position are
/// searched alike.
pub proof fn lemma_find_same_tenants(s1: Seq<VoiceSession>, s2: Seq<VoiceSession>, t: u64)
    requires
        s1.len() == s2.len(),
        forall|i: int| 0 <= i < s1.len() ==> s1[i].tenant == #[trigger] s2[i].tenant,
    ensures
        find_session(s1, t) == find_session(s2, t),
    decreases s1.len(),
{
    if s1.len() > 0 {
        assert forall|i: int|
            0 <= i < s1.drop_first().len() implies s1.drop_first()[i].tenant == #[trigger] s2
            .drop_first()[i].tenant by {
            assert(s1.drop_first()[i] == s1[i + 1]);
            assert(s2.drop_first()[i] == s2[i + 1]);
        }
        lemma_find_same_tenants(s1.drop_first(), s2.drop_first(), t);
    }
}

/// Appending a session moves no search result: tenants already held are
/// found where they were, and the new tenant is found at the tail.
pub proof fn lemma_find_push(s: Seq<VoiceSession>, x: VoiceSession, t: u64)
    ensures
        find_session(s, t) != -1 ==> find_session(s.push(x), t) == find_session(s, t),
        find_session(s, t) == -1 && x.tenant == t ==> find_session(s.push(x), t) == s.len(),
        find_session(s, t) == -1 && x.tenant != t ==> find_session(s.push(x), t) == -1,
    decreases s.len(),
{
    if s.len() == 0 {
        assert(s.push(x)[0] == x);
        assert(s.push(x).drop_first() =~= Seq::<VoiceSession>::empty());
        assert(find_session(Seq::<VoiceSession>::empty(), t) == -1);
        if x.tenant == t {
            assert(find_session(s.push(x), t) == 0);
        } else {
            assert(find_session(s.push(x), t) == -1);
        }
    } else {
        lemma_find_push(s.drop_first(), x, t);
        lemma_find_session_props(s.drop_first(), t);
        lemma_find_session_props(s.drop_first().push(x), t);
        assert(s.push(x)[0] == s[0]);
        assert(s.push(x).drop_first() =~= s.drop_first().push(x));
        assert(find_session(s.push(x).drop_first(), t) == find_session(
            s.drop_first().push(x),
            t,
        ));
        if s[0].tenant == t {
            assert(find_session(s, t) == 0);
        } else {
            assert(find_session(s, t) == if find_session(s.drop_first(), t) == -1 {
                -1int
            } else {
                find_session(s.drop_first(), t) + 1
            });
            assert(find_session(s.push(x), t) == if find_session(s.drop_first().push(x), t)
                == -1 {
                -1int
            } else {
                find_session(s.drop_first().push(x), t) + 1
            });
            if find_session(s.drop_first(), t) == -1 && x.tenant == t {
                assert(find_session(s.drop_first().push(x), t) == s.drop_first().len());
                assert(find_session(s.push(x), t) == s.len());
            }
        }
    }
}

/// Removing one tenant's session leaves every other tenant's search result
/// pointing at the same session as before.
pub proof fn lemma_find_remove(s: Seq<VoiceSession>, idx: int, t: u64)
    requires
        0 <= idx < s.len(),
        s[idx].tenant != t,
    ensures
        (find_session(s.remove(idx), t) == -1) == (find_session(s, t) == -1),
        find_session(s, t) != -1 ==> {
            &&& 0 <= find_session(s.remove(idx), t) < s.remove(idx).len()
            &&& s.remove(idx)[find_session(s.remove(idx), t)] == s[find_session(s, t)]
        },
    decreases s.len(),
{
    lemma_find_session_props(s, t);
    lemma_find_session_props(s.remove(idx), t);
    if idx == 0 {
        assert(s.remove(0) =~= s.drop_first());
    } else {
        assert(s.remove(idx)[0] == s[0]);
        if s[0].tenant != t {
            assert(s.drop_first()[idx - 1] == s[idx]);
            lemma_find_remove(s.drop_first(), idx - 1, t);
            assert(s.remove(idx).drop_first() =~= s.drop_first().remove(idx - 1));
            if find_session(s, t) != -1 {
                let f = find_session(s.remove(idx).drop_first(), t);
                assert(s.remove(idx)[f + 1] == s.remove(idx).drop_first()[f]);
                assert(s.drop_first()[find_session(s.drop_first(), t)] == s[find_session(s, t)]);
            }
        }
    }
}

/// The registry: every live session, at most one per tenant.
pub struct GuildSessionRegistry {
    sessions: Vec<VoiceSession>,
}

impl View for GuildSessionRegistry {
    type V = Seq<VoiceSession>;

    closed spec fn view(&self) -> Seq<VoiceSession> {
        self.sessions@
    }
}

impl GuildSessionRegistry {
    /// No tenant is served by two sessions, and every session is well
    /// formed.
    pub open spec fn wf(&self) -> bool {
        &&& forall|i: int, j: int|
            0 <= i < j < self@.len() ==> (#[trigger] self@[i]).tenant != (#[trigger] self@[j]).tenant
        &&& forall|i: int| 0 <= i < self@.len() ==> (#[trigger] self@[i]).wf()
    }

    /// Where `t`'s session is held, or -1.
    pub open spec fn spec_find(&self, t: u64) -> int {
        find_session(self@, t)
    }

    /// Whether `t` has a live session.
    pub open spec fn has_session(&self, t: u64) -> bool {
        self.spec_find(t) != -1
    }

    /// The session serving `t`; meaningful only when `has_session(t)`.
    pub open spec fn session(&self, t: u64) -> VoiceSession {
        self@[self.spec_find(t)]
    }

    /// Every tenant other than `t` keeps its session, or its absence, and
    /// the kept session is untouched.
    pub open spec fn others_unchanged(
        pre: GuildSessionRegistry,
        post: GuildSessionRegistry,
        t: u64,
    ) -> bool {
        forall|u: u64|
            #![trigger pre.has_session(u)]
            #![trigger post.has_session(u)]
            u != t ==> {
                &&& post.has_session(u) == pre.has_session(u)
                &&& pre.has_session(u) ==> post.session(u) == pre.session(u)
            }
    }

    /// An empty registry.
    pub fn new() -> (r: GuildSessionRegistry)
        ensures
            r@ == Seq::<VoiceSession>::empty(),
            r.wf(),
            forall|u: u64| !r.has_session(u),
    {
        let r = GuildSessionRegistry { sessions: Vec::new() };
        proof {
            assert(r@ =~= Seq::<VoiceSession>::empty());
        }
        r
    }

    /// How many sessions are live.
    pub fn count(&self) -> (n: usize)
        ensures
            n == self@.len(),
    {
        self.sessions.len()
    }

    /// Where `t`'s session sits in the store, if anywhere.
    fn index_of(&self, t: u64) -> (r: Option<usize>)
        ensures
            match r {
                Some(i) => self.has_session(t) && i == self.spec_find(t) && i < self@.len(),
                None => !self.has_session(t),
            },
    {
        let mut i: usize = 0;
        while i < self.sessions.len()
            invariant
                i <= self@.len(),
                forall|j: int| 0 <= j < i ==> (#[trigger] self@[j]).tenant != t,
            decreases self@.len() - i,
        {
            if self.sessions[i].tenant == t {
                proof {
                    lemma_find_session_props(self@, t);
                }
                return Some(i);
            }
            i = i + 1;
        }
        proof {
            lemma_find_session_props(self@, t);
        }
        None
    }

    /// Replacing one tenant's session with another one for the same tenant
    /// moves no search result, keeps the store well formed, and leaves every
    /// other tenant's session untouched.
    pub proof fn lemma_replace_at(
        pre: GuildSessionRegistry,
        post: GuildSessionRegistry,
        idx: int,
        t: u64,
    )
        requires
            pre.wf(),
            0 <= idx < pre@.len(),
            post@.len() == pre@.len(),
            forall|i: int| 0 <= i < pre@.len() && i != idx ==> post@[i] == pre@[i],
            pre.has_session(t),
            idx == pre.spec_find(t),
            post@[idx].tenant == pre@[idx].tenant,
            post@[idx].wf(),
        ensures
            post.wf(),
            GuildSessionRegistry::others_unchanged(pre, post, t),
            post.has_session(t),
            post.spec_find(t) == idx,
            post.session(t) == post@[idx],
            forall|u: u64| post.has_session(u) == #[trigger] pre.has_session(u),
    {
        lemma_find_session_props(pre@, t);
        assert(pre@[idx].tenant == t);
        assert forall|i: int| 0 <= i < pre@.len() implies pre@[i].tenant == #[trigger] post@[i].tenant by {}
        assert forall|u: u64| find_session(post@, u) == #[trigger] find_session(pre@, u) by {
            lemma_find_same_tenants(pre@, post@, u);
        }
        assert forall|u: u64|
            u != t && pre.has_session(u) implies post.session(u) == #[trigger] pre.session(u) by {
            lemma_find_session_props(pre@, u);
        }
        assert(post.wf());
    }

    /// Removing one tenant's session keeps the store well formed and leaves
    /// every other tenant's session untouched; the removed tenant has none
    /// left.
    pub proof fn lemma_remove_at(
        pre: GuildSessionRegistry,
        post: GuildSessionRegistry,
        idx: int,
        t: u64,
    )
        requires
            pre.wf(),
            0 <= idx < pre@.len(),
            pre@[idx].tenant == t,
            find_session(pre@, t) == idx,
            post@ == pre@.remove(idx),
        ensures
            post.wf(),
            !post.has_session(t),
            GuildSessionRegistry::others_unchanged(pre, post, t),
            post@.len() == pre@.len() - 1,
    {
        assert forall|i: int| 0 <= i < post@.len() implies (#[trigger] post@[i]).tenant != t
            && post@[i].wf() by {
            if i < idx {
                assert(post@[i] == pre@[i]);
            } else {
                assert(post@[i] == pre@[i + 1]);
            }
        }
        lemma_find_session_props(post@, t);
        assert forall|i: int, j: int|
            0 <= i < j < post@.len() implies (#[trigger] post@[i]).tenant != (
        #[trigger] post@[j]).tenant by {
            let pi: int = if i < idx {
                i
            } else {
                i + 1
            };
            let pj: int = if j < idx {
                j
            } else {
                j + 1
            };
            assert(post@[i] == pre@[pi]);
            assert(post@[j] == pre@[pj]);
        }
        assert forall|u: u64|
            u != t implies post.has_session(u) == #[trigger] pre.has_session(u) && (
            pre.has_session(u) ==> post.session(u) == pre.session(u)) by {
            lemma_find_remove(pre@, idx, u);
        }
    }

    /// Locates `t`'s session, creating a fresh one bound to `channel` when
    /// none is held; idempotent on a tenant that already has one. Returns
    /// where the session sits.
    fn ensure_session(&mut self, t: u64, channel: u64) -> (i: usize)
        requires
            old(self).wf(),
        ensures
            final(self).wf(),
            final(self).has_session(t),
            i == final(self).spec_find(t),
            i < final(self)@.len(),
            old(self).has_session(t) ==> *final(self) == *old(self),
            !old(self).has_session(t) ==> {
                &&& final(self)@.len() == old(self)@.len() + 1
                &&& final(self).session(t).tenant == t
                &&& final(self).session(t).channel == channel
                &&& final(self).session(t).queue@ == Seq::<Track>::empty()
                &&& final(self).session(t).pending_view() is None
            },
            GuildSessionRegistry::others_unchanged(*old(self), *final(self), t),
            forall|u: u64| final(self).has_session(u) == #[trigger] old(self).has_session(u)
                || u == t,
    {
        match self.index_of(t) {
            Some(i) => i,
            None => {
                let s = VoiceSession::new(t, channel);
                let ghost gs = s;
                let ghost pre = *self;
                self.sessions.push(s);
                proof {
                    lemma_find_push(pre@, gs, t);
                    lemma_find_session_props(pre@, t);
                    assert(self@ == pre@.push(gs));
                    assert(self@[pre@.len() as int] == gs);
                    assert(self.spec_find(t) == pre@.len());
                    assert forall|u: u64|
                        u != t implies self.has_session(u) == #[trigger] pre.has_session(u) && (
                        pre.has_session(u) ==> self.session(u) == pre.session(u)) by {
                        lemma_find_push(pre@, gs, u);
                        lemma_find_session_props(pre@, u);
                    }
                    assert forall|i: int, j: int|
                        0 <= i < j < self@.len() implies (#[trigger] self@[i]).tenant != (
                    #[trigger] self@[j]).tenant by {
                        if j < pre@.len() {
                            assert(self@[i] == pre@[i] && self@[j] == pre@[j]);
                        } else {
                            assert(self@[j] == gs);
                            assert(self@[i] == pre@[i]);
                        }
                    }
                    assert(self.wf());
                }
                self.sessions.len() - 1
            },
        }
    }

    /// Locates or creates `t`'s session: the existing one is returned
    /// untouched, otherwise one is created bound to `channel` and
    /// registered. Says whether it created one.
    pub fn get_or_create(&mut self, t: u64, channel: u64) -> (created: bool)
        requires
            old(self).wf(),
        ensures
            final(self).wf(),
            final(self).has_session(t),
            created == !old(self).has_session(t),
            !created ==> *final(self) == *old(self),
            created ==> {
                &&& final(self)@.len() == old(self)@.len() + 1
                &&& final(self).session(t).tenant == t
                &&& final(self).session(t).channel == channel
                &&& final(self).session(t).queue@ == Seq::<Track>::empty()
                &&& final(self).session(t).pending_view() is None
            },
            GuildSessionRegistry::others_unchanged(*old(self), *final(self), t),
    {
        let had = match self.index_of(t) {
            Some(_) => true,
            None => false,
        };
        let _ = self.ensure_session(t, channel);
        !had
    }

    /// Tears the session down and discards it. Reports, without changing
    /// anything, when the tenant has none.
    pub fn remove(&mut self, t: u64) -> (r: Result<(), CommandError>)
        requires
            old(self).wf(),
        ensures
            final(self).wf(),
            match r {
                Ok(()) => {
                    &&& old(self).has_session(t)
                    &&& !final(self).has_session(t)
                    &&& final(self)@.len() == old(self)@.len() - 1
                },
                Err(e) => {
                    &&& e is NoActiveSession
                    &&& !old(self).has_session(t)
                    &&& *final(self) == *old(self)
                },
            },
            GuildSessionRegistry::others_unchanged(*old(self), *final(self), t),
    {
        proof {
            lemma_find_session_props(self@, t);
        }
        match self.index_of(t) {
            None => Err(CommandError::NoActiveSession),
            Some(i) => {
                let ghost pre = *self;
                let _ = self.sessions.remove(i);
                proof {
                    GuildSessionRegistry::lemma_remove_at(pre, *self, i as int, t);
                }
                Ok(())
            },
        }
    }

    /// Appends a resolved track to `t`'s queue, locating or creating the
    /// session first, and returns the track's 1-based position.
    pub fn enqueue_for(&mut self, t: u64, channel: u64, track: Track) -> (pos: usize)
        requires
            track_wf(track),
            old(self).wf(),
        ensures
            final(self).wf(),
            final(self).has_session(t),
            GuildSessionRegistry::others_unchanged(*old(self), *final(self), t),
            old(self).has_session(t) ==> {
                &&& final(self)@.len() == old(self)@.len()
                &&& final(self).session(t).queue@ == old(self).session(t).queue@.push(track)
                &&& pos == old(self).session(t).queue@.len() + 1
                &&& final(self).session(t).pending_view() == old(self).session(t).pending_view()
                &&& final(self).session(t).channel == old(self).session(t).channel
            },
            !old(self).has_session(t) ==> {
                &&& final(self)@.len() == old(self)@.len() + 1
                &&& final(self).session(t).tenant == t
                &&& final(self).session(t).channel == channel
                &&& final(self).session(t).queue@ == seq![track]
                &&& final(self).session(t).pending_view() is None
                &&& pos == 1
            },
    {
        let i = self.ensure_session(t, channel);
        let ghost mid = *self;
        let sess = &mut self.sessions[i];
        let pos = sess.enqueue_track(track);
        proof {
            GuildSessionRegistry::lemma_replace_at(mid, *self, i as int, t);
            assert(Seq::<Track>::empty().push(track) =~= seq![track]);
        }
        pos
    }

    /// Appends the first resolved track of a playlist and parks the rest of
    /// its entries, in source order, as `t`'s pending playlist; the session
    /// is located or created first. Returns the track's 1-based position.
    pub fn enqueue_playlist_for(
        &mut self,
        t: u64,
        channel: u64,
        track: Track,
        rest: Vec<PlaylistEntry>,
    ) -> (pos: usize)
        requires
            track_wf(track),
            old(self).wf(),
        ensures
            final(self).wf(),
            final(self).has_session(t),
            GuildSessionRegistry::others_unchanged(*old(self), *final(self), t),
            final(self).session(t).pending_view() == Some(rest@.reverse()),
            old(self).has_session(t) ==> {
                &&& final(self)@.len() == old(self)@.len()
                &&& final(self).session(t).queue@ == old(self).session(t).queue@.push(track)
                &&& pos == old(self).session(t).queue@.len() + 1
                &&& final(self).session(t).channel == old(self).session(t).channel
            },
            !old(self).has_session(t) ==> {
                &&& final(self)@.len() == old(self)@.len() + 1
                &&& final(self).session(t).tenant == t
                &&& final(self).session(t).channel == channel
                &&& final(self).session(t).queue@ == seq![track]
                &&& pos == 1
            },
    {
        let i = self.ensure_session(t, channel);
        let ghost mid = *self;
        let sess = &mut self.sessions[i];
        let pos = sess.enqueue_track(track);
        sess.attach_playlist(rest);
        proof {
            GuildSessionRegistry::lemma_replace_at(mid, *self, i as int, t);
            assert(Seq::<Track>::empty().push(track) =~= seq![track]);
        }
        pos
    }

    /// Handles one track-completion notification for `t`: the finished
    /// front track leaves the queue, and the next parked entry, if any, is
    /// handed back for the caller to resolve and splice. A notification for
    /// a tenant with no session is an unreachable-state error, reported so
    /// the caller can absorb it, and changes nothing.
    pub fn complete_for(&mut self, t: u64) -> (r: Result<Option<PlaylistEntry>, CommandError>)
        requires
            old(self).wf(),
        ensures
            final(self).wf(),
            GuildSessionRegistry::others_unchanged(*old(self), *final(self), t),
            match r {
                Ok(next) => {
                    &&& old(self).has_session(t)
                    &&& final(self).has_session(t)
                    &&& final(self)@.len() == old(self)@.len()
                    &&& final(self).session(t).channel == old(self).session(t).channel
                    &&& final(self).session(t).queue@ == if old(self).session(t).queue@.len()
                        > 0 {
                        old(self).session(t).queue@.drop_first()
                    } else {
                        old(self).session(t).queue@
                    }
                    &&& match next {
                        Some(e) => {
                            &&& old(self).session(t).pending_view() matches Some(p) && p.len()
                                > 0 && e == p.last()
                            &&& final(self).session(t).pending_view() == Some(
                                old(self).session(t).pending_view().unwrap().drop_last(),
                            )
                        },
                        None => {
                            &&& match old(self).session(t).pending_view() {
                                Some(p) => p.len() == 0,
                                None => true,
                            }
                            &&& final(self).session(t).pending_view() == old(self).session(
                                t,
                            ).pending_view()
                        },
                    }
                },
                Err(e) => {
                    &&& e is NoActiveSession
                    &&& !old(self).has_session(t)
                    &&& *final(self) == *old(self)
                },
            },
    {
        match self.index_of(t) {
            None => Err(CommandError::NoActiveSession),
            Some(i) => {
                let ghost mid = *self;
                let sess = &mut self.sessions[i];
                let next = sess.complete_current();
                proof {
                    GuildSessionRegistry::lemma_replace_at(mid, *self, i as int, t);
                }
                Ok(next)
            },
        }
    }

    /// Splices a freshly resolved continuation track into `t`'s queue: at
    /// the front when playlist tracks jump the queue, at the tail otherwise.
    /// When the session is gone by the time the resolution lands, the result
    /// is discarded: the error reports it and nothing changes.
    pub fn splice_for(&mut self, t: u64, track: Track, jump: bool) -> (r: Result<
        (),
        CommandError,
    >)
        requires
            track_wf(track),
            old(self).wf(),
        ensures
            final(self).wf(),
            GuildSessionRegistry::others_unchanged(*old(self), *final(self), t),
            match r {
                Ok(()) => {
                    &&& old(self).has_session(t)
                    &&& final(self).has_session(t)
                    &&& final(self)@.len() == old(self)@.len()
                    &&& final(self).session(t).queue@ == if jump {
                        seq![track] + old(self).session(t).queue@
                    } else {
                        old(self).session(t).queue@.push(track)
                    }
                    &&& final(self).session(t).pending_view() == old(self).session(
                        t,
                    ).pending_view()
                    &&& final(self).session(t).channel == old(self).session(t).channel
                },
                Err(e) => {
                    &&& e is NoActiveSession
                    &&& !old(self).has_session(t)
                    &&& *final(self) == *old(self)
                },
            },
    {
        match self.index_of(t) {
            None => Err(CommandError::NoActiveSession),
            Some(i) => {
                let ghost mid = *self;
                let sess = &mut self.sessions[i];
                sess.splice_continuation(track, jump);
                proof {
                    GuildSessionRegistry::lemma_replace_at(mid, *self, i as int, t);
                }
                Ok(())
            },
        }
    }

    /// Skips the front of `t`'s queue. With `bypass`, the parked playlist is
    /// dropped first; an empty queue fails with `QueueEmpty` and then drops
    /// nothing either. Without `bypass`, the skip counts as a completion, so
    /// the next parked entry, if any, comes back to resolve and splice.
    /// Returns the skipped track with that directive.
    pub fn skip_for(&mut self, t: u64, bypass: bool) -> (r: Result<
        (Track, Option<PlaylistEntry>),
        CommandError,
    >)
        requires
            old(self).wf(),
        ensures
            final(self).wf(),
            GuildSessionRegistry::others_unchanged(*old(self), *final(self), t),
            match r {
                Ok(p) => {
                    &&& old(self).has_session(t)
                    &&& final(self).has_session(t)
                    &&& final(self)@.len() == old(self)@.len()
                    &&& old(self).session(t).queue@.len() > 0
                    &&& p.0 == old(self).session(t).queue@[0]
                    &&& final(self).session(t).queue@ == old(self).session(t).queue@.drop_first()
                    &&& final(self).session(t).channel == old(self).session(t).channel
                    &&& if bypass {
                        final(self).session(t).pending_view() is None && p.1 is None
                    } else {
                        match p.1 {
                            Some(e) => {
                                &&& old(self).session(t).pending_view() matches Some(q)
                                    && q.len() > 0 && e == q.last()
                                &&& final(self).session(t).pending_view() == Some(
                                    old(self).session(t).pending_view().unwrap().drop_last(),
                                )
                            },
                            None => {
                                &&& match old(self).session(t).pending_view() {
                                    Some(q) => q.len() == 0,
                                    None => true,
                                }
                                &&& final(self).session(t).pending_view() == old(self).session(
                                    t,
                                ).pending_view()
                            },
                        }
                    }
                },
                Err(e) => {
                    &&& final(self)@ == old(self)@
                    &&& match e {
                        CommandError::NoActiveSession => !old(self).has_session(t),
                        CommandError::QueueEmpty => old(self).has_session(t) && old(
                            self,
                        ).session(t).queue@.len() == 0,
                        _ => false,
                    }
                },
            },
    {
        match self.index_of(t) {
            None => Err(CommandError::NoActiveSession),
            Some(i) => {
                let ghost mid = *self;
                let sess = &mut self.sessions[i];
                let res = sess.skip(bypass);
                proof {
                    GuildSessionRegistry::lemma_replace_at(mid, *self, i as int, t);
                    if res is Err {
                        assert(self@ =~= mid@);
                    }
                }
                res
            },
        }
    }

    /// Applies a new volume to the stream of `t`'s front track only; a
    /// tenant with no session is refused, and a session with an empty queue
    /// keeps quiet and changes nothing.
    pub fn set_live_volume_for(&mut self, t: u64, volume: u32) -> (r: Result<(), CommandError>)
        requires
            volume <= MAX_VOLUME,
            old(self).wf(),
        ensures
            final(self).wf(),
            GuildSessionRegistry::others_unchanged(*old(self), *final(self), t),
            match r {
                Ok(()) => {
                    &&& old(self).has_session(t)
                    &&& final(self).has_session(t)
                    &&& final(self)@.len() == old(self)@.len()
                    &&& final(self).session(t).pending_view() == old(self).session(
                        t,
                    ).pending_view()
                    &&& final(self).session(t).channel == old(self).session(t).channel
                    &&& old(self).session(t).queue@.len() == 0 ==> final(self).session(t).queue@
                        == old(self).session(t).queue@
                    &&& old(self).session(t).queue@.len() > 0 ==> {
                        &&& final(self).session(t).queue@.len() == old(self).session(
                            t,
                        ).queue@.len()
                        &&& final(self).session(t).queue@[0].volume == volume
                        &&& final(self).session(t).queue@[0].title == old(self).session(
                            t,
                        ).queue@[0].title
                        &&& final(self).session(t).queue@[0].source_url == old(self).session(
                            t,
                        ).queue@[0].source_url
                        &&& final(self).session(t).queue@[0].thumbnail == old(self).session(
                            t,
                        ).queue@[0].thumbnail
                        &&& final(self).session(t).queue@[0].handle == old(self).session(
                            t,
                        ).queue@[0].handle
                        &&& forall|k: int|
                            1 <= k < old(self).session(t).queue@.len() ==> final(self).session(
                                t,
                            ).queue@[k] == old(self).session(t).queue@[k]
                    }
                },
                Err(e) => {
                    &&& e is NoActiveSession
                    &&& !old(self).has_session(t)
                    &&& *final(self) == *old(self)
                },
            },
    {
        match self.index_of(t) {
            None => Err(CommandError::NoActiveSession),
            Some(i) => {
                let ghost mid = *self;
                let sess = &mut self.sessions[i];
                sess.queue.set_front_volume(volume);
                proof {
                    GuildSessionRegistry::lemma_replace_at(mid, *self, i as int, t);
                }
                Ok(())
            },
        }
    }

    /// A copy of the front track of `t`'s queue: what is playing now.
    pub fn current_for(&self, t: u64) -> (r: Result<Option<Track>, CommandError>)
        ensures
            match r {
                Ok(opt) => self.has_session(t) && match opt {
                    Some(tr) => self.session(t).queue@.len() > 0 && track_repr(tr) == track_repr(
                        self.session(t).queue@[0],
                    ),
                    None => self.session(t).queue@.len() == 0,
                },
                Err(e) => e is NoActiveSession && !self.has_session(t),
            },
    {
        match self.index_of(t) {
            None => Err(CommandError::NoActiveSession),
            Some(i) => match self.sessions[i].queue.current() {
                Some(tr) => Ok(Some(tr.duplicate())),
                None => Ok(None),
            },
        }
    }

    /// Up to `limit` entries of `t`'s queue, in order, copied for display.
    pub fn snapshot_for(&self, t: u64, limit: usize) -> (r: Result<Vec<Track>, CommandError>)
        ensures
            match r {
                Ok(v) => {
                    &&& self.has_session(t)
                    &&& v@.len() == if limit < self.session(t).queue@.len() {
                        limit as int
                    } else {
                        self.session(t).queue@.len() as int
                    }
                    &&& forall|k: int|
                        0 <= k < v@.len() ==> track_repr(#[trigger] v@[k]) == track_repr(
                            self.session(t).queue@[k],
                        )
                },
                Err(e) => e is NoActiveSession && !self.has_session(t),
            },
    {
        match self.index_of(t) {
            None => Err(CommandError::NoActiveSession),
            Some(i) => Ok(self.sessions[i].queue.snapshot(limit)),
        }
    }

    /// A read-only look at `t`'s session, with no side effects.
    pub fn get(&self, t: u64) -> (r: Option<&VoiceSession>)
        ensures
            match r {
                Some(s) => self.has_session(t) && *s == self.session(t),
                None => !self.has_session(t),
            },
    {
        proof {
            lemma_find_session_props(self@, t);
        }
        match self.index_of(t) {
            Some(i) => Some(&self.sessions[i]),
            None => None,
        }
    }
}

} // verus!
