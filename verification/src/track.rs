//! A resolved, playable track: the metadata the resolver handed back, the
//! volume it was created with, and the handle of its underlying stream.

use vstd::prelude::*;

verus! {

/// The volume every tenant starts with, in hundredths of full scale.
pub const DEFAULT_VOLUME: u32 = 70;

/// The loudest allowed volume, in hundredths of full scale.
pub const MAX_VOLUME: u32 = 100;

/// One playable entry of a queue. `volume` is in hundredths of full scale,
/// fixed at creation time from the tenant's stored volume; `handle` names the
/// underlying audio stream to the surrounding program.
pub struct Track {
    pub title: Option<String>,
    pub source_url: String,
    pub thumbnail: Option<String>,
    pub volume: u32,
    pub handle: u64,
}

/// The fields of a track as mathematical values, for contracts that compare
/// a copy with its original.
pub open spec fn track_repr(t: Track) -> (Option<Seq<char>>, Seq<char>, Option<Seq<char>>, u32, u64) {
    (t.title.deep_view(), t.source_url@, t.thumbnail.deep_view(), t.volume, t.handle)
}

/// A track is well formed when its volume is within full scale.
pub open spec fn track_wf(t: Track) -> bool {
    t.volume <= MAX_VOLUME
}

/// A copy of an optional string, equal in content to the original.
pub fn clone_opt_string(s: &Option<String>) -> (r: Option<String>)
    ensures
        r.deep_view() == s.deep_view(),
{
    match s {
        Some(x) => Some(x.clone()),
        None => None,
    }
}

impl Track {
    /// Builds a track from resolved metadata and the tenant's stored volume.
    pub fn new(
        title: Option<String>,
        source_url: String,
        thumbnail: Option<String>,
        volume: u32,
        handle: u64,
    ) -> (t: Track)
        requires
            volume <= MAX_VOLUME,
        ensures
            t.title == title,
            t.source_url == source_url,
            t.thumbnail == thumbnail,
            t.volume == volume,
            t.handle == handle,
            track_wf(t),
    {
        Track { title, source_url, thumbnail, volume, handle }
    }

    /// A copy whose fields carry the same content.
    pub fn duplicate(&self) -> (t: Track)
        ensures
            track_repr(t) == track_repr(*self),
            track_wf(t) == track_wf(*self),
    {
        Track {
            title: clone_opt_string(&self.title),
            source_url: self.source_url.clone(),
            thumbnail: clone_opt_string(&self.thumbnail),
            volume: self.volume,
            handle: self.handle,
        }
    }
}

} // verus!
