//! One tenant's live session: the voice channel it is bound to, its playback
//! queue, and the parked remainder of the playlist it is draining, if any.

use vstd::prelude::*;

use crate::errors::CommandError;
use crate::playlist::{PendingPlaylist, PlaylistEntry};
use crate::queue::PlaybackQueue;
use crate::track::{track_wf, Track};

verus! {

/// The live state of one tenant. There is at most one of these per tenant,
/// enforced by the registry that owns them.
pub struct VoiceSession {
    /// The tenant this session serves; never changes.
    pub tenant: u64,
    /// The voice channel the live connection is bound to.
    pub channel: u64,
    /// The ordered tracks; the front is playing or about to play.
    pub queue: PlaybackQueue,
    /// The unresolved tail of a playlist being drained lazily, if one is.
    /// Consulted by the completion handling; replaced whole when a new
    /// playlist is enqueued, cleared by a bypass-skip.
    pub pending: Option<PendingPlaylist>,
}

impl VoiceSession {
    /// Every queued track is well formed.
    pub open spec fn wf(&self) -> bool {
        self.queue.wf()
    }

    /// The parked entries as a mathematical value, if a playlist is parked.
    pub open spec fn pending_view(&self) -> Option<Seq<PlaylistEntry>> {
        match self.pending {
            Some(p) => Some(p@),
            None => None,
        }
    }

    /// A fresh session for `tenant`, bound to `channel`: empty queue, no
    /// parked playlist.
    pub fn new(tenant: u64, channel: u64) -> (s: VoiceSession)
        ensures
            s.tenant == tenant,
            s.channel == channel,
            s.queue@ == Seq::<Track>::empty(),
            s.pending_view() is None,
            s.wf(),
    {
        VoiceSession { tenant, channel, queue: PlaybackQueue::new(), pending: None }
    }

    /// Appends a resolved track; the parked playlist is untouched. Returns
    /// the track's 1-based position.
    pub fn enqueue_track(&mut self, t: Track) -> (pos: usize)
        requires
            track_wf(t),
            old(self).wf(),
        ensures
            final(self).queue@ == old(self).queue@.push(t),
            pos == old(self).queue@.len() + 1,
            final(self).pending_view() == old(self).pending_view(),
            final(self).tenant == old(self).tenant,
            final(self).channel == old(self).channel,
            final(self).wf(),
    {
        self.queue.enqueue(t)
    }

    /// Parks the given not-yet-resolved entries, in source order, as this
    /// session's pending playlist. A playlist already parked is superseded
    /// whole: the single pending field is the one continuation source.
    pub fn attach_playlist(&mut self, rest: Vec<PlaylistEntry>)
        requires
            old(self).wf(),
        ensures
            final(self).pending_view() == Some(rest@.reverse()),
            final(self).queue@ == old(self).queue@,
            final(self).tenant == old(self).tenant,
            final(self).channel == old(self).channel,
            final(self).wf(),
    {
        self.pending = Some(PendingPlaylist::from_entries(rest));
    }

    /// Handles one track-completion notification: the finished front track
    /// leaves the queue, and the next parked entry, if any, is handed back
    /// for the caller to resolve and splice. An exhausted or absent parked
    /// playlist is a safe terminal no-op: nothing is handed back, and later
    /// completions keep finding it empty.
    pub fn complete_current(&mut self) -> (r: Option<PlaylistEntry>)
        requires
            old(self).wf(),
        ensures
            final(self).queue@ == if old(self).queue@.len() > 0 {
                old(self).queue@.drop_first()
            } else {
                old(self).queue@
            },
            match r {
                Some(e) => {
                    &&& old(self).pending_view() matches Some(p) && p.len() > 0 && e == p.last()
                    &&& final(self).pending_view() == Some(
                        old(self).pending_view().unwrap().drop_last(),
                    )
                },
                None => {
                    &&& match old(self).pending_view() {
                        Some(p) => p.len() == 0,
                        None => true,
                    }
                    &&& final(self).pending_view() == old(self).pending_view()
                },
            },
            final(self).tenant == old(self).tenant,
            final(self).channel == old(self).channel,
            final(self).wf(),
    {
        let _finished = self.queue.advance();
        match &mut self.pending {
            Some(p) => p.pop_next(),
            None => None,
        }
    }

    /// Removes the front entry, as the skip command asks. With `bypass`, the
    /// parked playlist is dropped first, permanently disabling continuation
    /// until a new playlist is enqueued. An empty queue fails with
    /// `QueueEmpty` and changes nothing: dropping and removal are coupled.
    /// Without `bypass`, the skip counts as a completion, so the next parked
    /// entry, if any, is handed back to resolve and splice.
    pub fn skip(&mut self, bypass: bool) -> (r: Result<(Track, Option<PlaylistEntry>), CommandError>)
        requires
            old(self).wf(),
        ensures
            match r {
                Ok(p) => {
                    &&& old(self).queue@.len() > 0
                    &&& p.0 == old(self).queue@[0]
                    &&& final(self).queue@ == old(self).queue@.drop_first()
                    &&& if bypass {
                        final(self).pending_view() is None && p.1 is None
                    } else {
                        match p.1 {
                            Some(e) => {
                                &&& old(self).pending_view() matches Some(q) && q.len() > 0
                                    && e == q.last()
                                &&& final(self).pending_view() == Some(
                                    old(self).pending_view().unwrap().drop_last(),
                                )
                            },
                            None => {
                                &&& match old(self).pending_view() {
                                    Some(q) => q.len() == 0,
                                    None => true,
                                }
                                &&& final(self).pending_view() == old(self).pending_view()
                            },
                        }
                    }
                },
                Err(e) => {
                    &&& e is QueueEmpty
                    &&& old(self).queue@.len() == 0
                    &&& *final(self) == *old(self)
                },
            },
            final(self).tenant == old(self).tenant,
            final(self).channel == old(self).channel,
            final(self).wf(),
    {
        if self.queue.len() == 0 {
            return Err(CommandError::QueueEmpty);
        }
        if bypass {
            self.pending = None;
        }
        let skipped = self.queue.advance().unwrap();
        let next = if bypass {
            None
        } else {
            match &mut self.pending {
                Some(p) => p.pop_next(),
                None => None,
            }
        };
        Ok((skipped, next))
    }

    /// Splices a freshly resolved continuation track into the queue: at the
    /// front when playlist tracks jump the queue, at the tail otherwise.
    pub fn splice_continuation(&mut self, t: Track, jump: bool)
        requires
            track_wf(t),
            old(self).wf(),
        ensures
            final(self).queue@ == if jump {
                seq![t] + old(self).queue@
            } else {
                old(self).queue@.push(t)
            },
            final(self).pending_view() == old(self).pending_view(),
            final(self).tenant == old(self).tenant,
            final(self).channel == old(self).channel,
            final(self).wf(),
    {
        if jump {
            self.queue.splice_front(t);
        } else {
            self.queue.enqueue(t);
        }
    }
}

} // verus!
