//! The parked, not-yet-resolved tail of a playlist. Entries are stored in
//! reverse of their source order, so that popping from the tail yields them
//! in source order, one per track-completion event.

use vstd::prelude::*;

use crate::track::clone_opt_string;

verus! {

/// One flat playlist listing entry: a source locator and a title, neither of
/// which the resolver is obliged to supply, and no resolved stream yet.
pub struct PlaylistEntry {
    pub title: Option<String>,
    pub source_url: Option<String>,
}

/// The fields of an entry as mathematical values, for contracts that compare
/// a copy with its original.
pub open spec fn entry_repr(e: PlaylistEntry) -> (Option<Seq<char>>, Option<Seq<char>>) {
    (e.title.deep_view(), e.source_url.deep_view())
}

impl PlaylistEntry {
    /// A copy whose fields carry the same content.
    pub fn duplicate(&self) -> (e: PlaylistEntry)
        ensures
            entry_repr(e) == entry_repr(*self),
    {
        PlaylistEntry {
            title: clone_opt_string(&self.title),
            source_url: clone_opt_string(&self.source_url),
        }
    }
}

/// The unresolved remainder of a playlist, owned by one session and consumed
/// from the tail one entry at a time.
pub struct PendingPlaylist {
    entries: Vec<PlaylistEntry>,
}

impl View for PendingPlaylist {
    type V = Seq<PlaylistEntry>;

    closed spec fn view(&self) -> Seq<PlaylistEntry> {
        self.entries@
    }
}

impl PendingPlaylist {
    /// Parks the not-yet-resolved entries, given in source order; they are
    /// held reversed so the tail pop yields the source order back.
    pub fn from_entries(rest: Vec<PlaylistEntry>) -> (p: PendingPlaylist)
        ensures
            p@ == rest@.reverse(),
    {
        let mut entries = rest;
        let mut out: Vec<PlaylistEntry> = Vec::new();
        while entries.len() > 0
            invariant
                out@ + entries@.reverse() == rest@.reverse(),
            decreases entries@.len(),
        {
            let e = entries.pop().unwrap();
            proof {
                assert(entries@.push(e).reverse() =~= seq![e] + entries@.reverse());
                assert(out@ + (seq![e] + entries@.reverse()) =~= (out@ + seq![e])
                    + entries@.reverse());
                assert(out@.push(e) =~= out@ + seq![e]);
            }
            out.push(e);
        }
        proof {
            assert(out@ + entries@.reverse() =~= out@);
        }
        PendingPlaylist { entries: out }
    }

    /// How many entries are still parked.
    pub fn len(&self) -> (n: usize)
        ensures
            n == self@.len(),
    {
        self.entries.len()
    }

    /// Pops the next entry to continue with: the tail of the reversed store,
    /// which is the earliest source-order entry still parked. An exhausted
    /// playlist yields nothing and stays empty.
    pub fn pop_next(&mut self) -> (r: Option<PlaylistEntry>)
        ensures
            match r {
                Some(e) => old(self)@.len() > 0 && e == old(self)@.last()
                    && final(self)@ == old(self)@.drop_last(),
                None => old(self)@.len() == 0 && final(self)@ == old(self)@,
            },
    {
        self.entries.pop()
    }
}

} // verus!
