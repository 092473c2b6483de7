//! Laws the command surface obeys across calls, stated over the transition
//! predicates the functions' own contracts use and proved for every state
//! they can hold in. Commands against one tenant serialize on that tenant's
//! session lock, so a run of concurrent calls against it lands as some
//! sequential order of these transitions; the laws speak of such runs.

use vstd::prelude::*;

use crate::errors::CommandError;
use crate::orchestrator::Orchestrator;
use crate::playlist::PlaylistEntry;
use crate::track::Track;

verus! {

/// An enqueue for a tenant with no session creates exactly one session, at
/// position one of a fresh queue, and no other tenant's session, queue,
/// parked playlist or stored volume moves.
pub proof fn lemma_enqueue_creates_one_session(
    pre: Orchestrator,
    post: Orchestrator,
    t: u64,
    channel: u64,
    track: Track,
    pos: usize,
    u: u64,
)
    requires
        !pre.has_session(t),
        Orchestrator::enqueue_track_post(pre, post, t, channel, track, pos),
        u != t,
    ensures
        post.has_session(t),
        post.session_count() == pre.session_count() + 1,
        pos == 1,
        post.has_session(u) == pre.has_session(u),
        pre.has_session(u) ==> {
            &&& post.session_queue(u) == pre.session_queue(u)
            &&& post.session_pending(u) == pre.session_pending(u)
            &&& post.session_channel(u) == pre.session_channel(u)
        },
        post.volume_of(u) == pre.volume_of(u),
{
}

/// Two successful non-playlist enqueues against one tenant land in
/// submission order: the queue grows by exactly the submitted tracks, in
/// order, and each reports the position it landed at — the prior length
/// plus one.
pub proof fn lemma_enqueues_keep_submission_order(
    s0: Orchestrator,
    s1: Orchestrator,
    s2: Orchestrator,
    t: u64,
    ch1: u64,
    ch2: u64,
    a: Track,
    b: Track,
    p1: usize,
    p2: usize,
)
    requires
        Orchestrator::enqueue_track_post(s0, s1, t, ch1, a, p1),
        Orchestrator::enqueue_track_post(s1, s2, t, ch2, b, p2),
    ensures
        p2 == p1 + 1,
        s2.session_queue(t) == (if s0.has_session(t) {
            s0.session_queue(t)
        } else {
            Seq::<Track>::empty()
        }).push(a).push(b),
        s2.session_queue(t)[p1 - 1] == a,
        s2.session_queue(t)[p2 - 1] == b,
{
    if !s0.has_session(t) {
        assert(seq![a] =~= Seq::<Track>::empty().push(a));
    }
}

/// A bypass-skip permanently disables playlist continuation: whatever was
/// parked when the skip ran, the next completion notification asks for no
/// resolution and parks nothing new; the queue only advances.
pub proof fn lemma_bypass_skip_disables_continuation(
    pre: Orchestrator,
    mid: Orchestrator,
    post: Orchestrator,
    t: u64,
    skipped: (Track, Option<PlaylistEntry>),
    r: Result<Option<PlaylistEntry>, CommandError>,
)
    requires
        Orchestrator::skip_post(pre, mid, t, true, Ok(skipped)),
        Orchestrator::complete_post(mid, post, t, r),
    ensures
        r matches Ok(next) && next is None,
        post.session_pending(t) is None,
        post.session_queue(t) == if mid.session_queue(t).len() > 0 {
            mid.session_queue(t).drop_first()
        } else {
            mid.session_queue(t)
        },
{
}

/// One whole expansion step — a completion followed by the splice of the
/// resolved track — continues with the earliest parked entry, leaves exactly
/// the later ones parked, and, under the jump policy, puts the new track
/// right where the finished one played, ahead of tracks enqueued ad hoc.
pub proof fn lemma_playlist_expansion_step(
    pre: Orchestrator,
    mid: Orchestrator,
    post: Orchestrator,
    t: u64,
    rest: Seq<PlaylistEntry>,
    r1: Result<Option<PlaylistEntry>, CommandError>,
    track: Track,
    r2: Result<(), CommandError>,
)
    requires
        pre.has_session(t),
        pre.session_pending(t) == Some(rest.reverse()),
        rest.len() > 0,
        Orchestrator::complete_post(pre, mid, t, r1),
        Orchestrator::continuation_post(mid, post, t, track, r2),
        r2 is Ok,
    ensures
        r1 == Ok::<Option<PlaylistEntry>, CommandError>(Some(rest[0])),
        post.session_pending(t) == Some(rest.subrange(1, rest.len() as int).reverse()),
        pre.playlist_jumps_queue ==> post.session_queue(t) == seq![track] + (if pre.session_queue(
            t,
        ).len() > 0 {
            pre.session_queue(t).drop_first()
        } else {
            pre.session_queue(t)
        }),
        !pre.playlist_jumps_queue ==> post.session_queue(t) == (if pre.session_queue(t).len()
            > 0 {
            pre.session_queue(t).drop_first()
        } else {
            pre.session_queue(t)
        }).push(track),
{
    lemma_completion_pops_source_order(pre, mid, t, rest, r1);
}

/// Completion notifications drain a freshly parked playlist in source
/// order: with entries still parked, the next completion continues with the
/// earliest of them and leaves exactly the later ones parked.
pub proof fn lemma_completion_pops_source_order(
    pre: Orchestrator,
    post: Orchestrator,
    t: u64,
    rest: Seq<PlaylistEntry>,
    r: Result<Option<PlaylistEntry>, CommandError>,
)
    requires
        pre.has_session(t),
        pre.session_pending(t) == Some(rest.reverse()),
        rest.len() > 0,
        Orchestrator::complete_post(pre, post, t, r),
    ensures
        r == Ok::<Option<PlaylistEntry>, CommandError>(Some(rest[0])),
        post.session_pending(t) == Some(rest.subrange(1, rest.len() as int).reverse()),
{
    assert(rest.reverse().last() == rest[0]);
    assert(rest.reverse().drop_last() =~= rest.subrange(1, rest.len() as int).reverse());
}

} // verus!
