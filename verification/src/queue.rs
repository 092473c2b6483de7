//! The ordered, mutable list of resolved tracks for one tenant. Position 0,
//! if present, is the currently playing or about-to-play track.

use vstd::prelude::*;

use crate::errors::CommandError;
use crate::track::{track_repr, track_wf, Track, MAX_VOLUME};

verus! {

/// The playback queue of one session. Appending is the only way in, except
/// for the playlist splice, which inserts directly behind the front.
pub struct PlaybackQueue {
    tracks: Vec<Track>,
}

impl View for PlaybackQueue {
    type V = Seq<Track>;

    closed spec fn view(&self) -> Seq<Track> {
        self.tracks@
    }
}

impl PlaybackQueue {
    /// Every held track is well formed.
    pub open spec fn wf(&self) -> bool {
        forall|i: int| 0 <= i < self@.len() ==> track_wf(#[trigger] self@[i])
    }

    /// An empty queue.
    pub fn new() -> (q: PlaybackQueue)
        ensures
            q@ == Seq::<Track>::empty(),
            q.wf(),
    {
        let q = PlaybackQueue { tracks: Vec::new() };
        proof {
            assert(q@ =~= Seq::<Track>::empty());
        }
        q
    }

    /// How many tracks are queued, the playing one included.
    pub fn len(&self) -> (n: usize)
        ensures
            n == self@.len(),
    {
        self.tracks.len()
    }

    /// Appends a resolved track and returns its 1-based position, for user
    /// feedback.
    pub fn enqueue(&mut self, t: Track) -> (pos: usize)
        requires
            track_wf(t),
            old(self).wf(),
        ensures
            final(self)@ == old(self)@.push(t),
            pos == old(self)@.len() + 1,
            final(self).wf(),
    {
        self.tracks.push(t);
        self.tracks.len()
    }

    /// Inserts a track directly behind the currently playing entry: the
    /// playlist splice. On an empty queue the track becomes the front.
    pub fn splice_front(&mut self, t: Track)
        requires
            track_wf(t),
            old(self).wf(),
        ensures
            final(self)@ == seq![t] + old(self)@,
            final(self).wf(),
    {
        self.tracks.insert(0, t);
        proof {
            assert(final(self)@ =~= seq![t] + old(self)@);
        }
    }

    /// The front of the queue: the currently playing or about-to-play track.
    pub fn current(&self) -> (r: Option<&Track>)
        ensures
            match r {
                Some(t) => self@.len() > 0 && *t == self@[0],
                None => self@.len() == 0,
            },
    {
        if self.tracks.len() == 0 {
            None
        } else {
            Some(&self.tracks[0])
        }
    }

    /// Removes the front entry, promoting the next, and hands the removed
    /// track back; an empty queue yields nothing and stays empty.
    pub fn advance(&mut self) -> (r: Option<Track>)
        requires
            old(self).wf(),
        ensures
            match r {
                Some(t) => old(self)@.len() > 0 && t == old(self)@[0]
                    && final(self)@ == old(self)@.drop_first(),
                None => old(self)@.len() == 0 && final(self)@ == old(self)@,
            },
            final(self).wf(),
    {
        if self.tracks.len() == 0 {
            None
        } else {
            Some(self.tracks.remove(0))
        }
    }

    /// Removes the front element. Fails with `QueueEmpty`, and changes
    /// nothing, when no element exists.
    pub fn skip(&mut self) -> (r: Result<(), CommandError>)
        requires
            old(self).wf(),
        ensures
            match r {
                Ok(()) => old(self)@.len() > 0 && final(self)@ == old(self)@.drop_first(),
                Err(e) => e is QueueEmpty && old(self)@.len() == 0 && final(self)@ == old(self)@,
            },
            final(self).wf(),
    {
        match self.advance() {
            Some(_) => Ok(()),
            None => Err(CommandError::QueueEmpty),
        }
    }

    /// Applies a new volume to the front track's stream only; tracks already
    /// queued behind it keep the volume they were created with.
    pub fn set_front_volume(&mut self, volume: u32)
        requires
            volume <= MAX_VOLUME,
            old(self).wf(),
        ensures
            old(self)@.len() == 0 ==> final(self)@ == old(self)@,
            old(self)@.len() > 0 ==> {
                &&& final(self)@.len() == old(self)@.len()
                &&& final(self)@[0].volume == volume
                &&& final(self)@[0].title == old(self)@[0].title
                &&& final(self)@[0].source_url == old(self)@[0].source_url
                &&& final(self)@[0].thumbnail == old(self)@[0].thumbnail
                &&& final(self)@[0].handle == old(self)@[0].handle
                &&& forall|i: int| 1 <= i < old(self)@.len() ==> final(self)@[i] == old(self)@[i]
            },
            final(self).wf(),
    {
        if self.tracks.len() > 0 {
            let front = &mut self.tracks[0];
            front.volume = volume;
        }
    }

    /// Up to `limit` entries from the front, in order, copied for display.
    pub fn snapshot(&self, limit: usize) -> (r: Vec<Track>)
        ensures
            r@.len() == if limit < self@.len() { limit as int } else { self@.len() as int },
            forall|i: int| 0 <= i < r@.len() ==> track_repr(#[trigger] r@[i]) == track_repr(self@[i]),
    {
        let take: usize = if limit < self.tracks.len() { limit } else { self.tracks.len() };
        let mut out: Vec<Track> = Vec::new();
        let mut i: usize = 0;
        while i < take
            invariant
                take <= self@.len(),
                i <= take,
                out@.len() == i as int,
                forall|j: int| 0 <= j < i ==> track_repr(#[trigger] out@[j]) == track_repr(self@[j]),
            decreases take - i,
        {
            out.push(self.tracks[i].duplicate());
            i = i + 1;
        }
        out
    }
}

} // verus!
