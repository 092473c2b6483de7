//! Parsing the resolver's flat playlist listing. The resolver prints one
//! JSON document per line; each carries the entry's title and source locator.
//! Reading the resolver's output is the surrounding program's work; turning
//! its lines into entries is the core's, and the first bad line fails the
//! whole listing with no entry kept.

use vstd::prelude::*;

use crate::errors::CommandError;
use crate::playlist::{entry_repr, PlaylistEntry};

verus! {

/// What parsing one listing line yields: nothing when the line is not a
/// valid JSON document, otherwise the entry's title and source locator,
/// either of which the listing may omit. A function of the line alone.
pub uninterp spec fn listing_line_entry(line: Seq<char>) -> Option<
    (Option<Seq<char>>, Option<Seq<char>>),
>;

/// Relies on `serde_json::from_str`, which accepts exactly the valid JSON
/// texts, and on `serde_json::Value`'s object field lookup for the `title`
/// and `webpage_url` string fields; both depend on the line alone.
#[verifier::external_body]
fn parse_listing_line(line: &str) -> (r: Result<PlaylistEntry, String>)
    ensures
        r is Ok <==> listing_line_entry(line@) is Some,
        r matches Ok(e) ==> listing_line_entry(line@) == Some(entry_repr(e)),
{
    match serde_json::from_str::<serde_json::Value>(line) {
        Ok(v) => Ok(PlaylistEntry {
            title: v.get("title").and_then(serde_json::Value::as_str).map(str::to_string),
            source_url: v.get("webpage_url").and_then(serde_json::Value::as_str).map(
                str::to_string,
            ),
        }),
        Err(e) => Err(e.to_string()),
    }
}

/// What a whole listing parses to: empty lines are passed over, any invalid
/// line spoils the listing, and the rest yield their entries in order.
pub open spec fn spec_parse_listing(lines: Seq<Seq<char>>) -> Option<
    Seq<(Option<Seq<char>>, Option<Seq<char>>)>,
>
    decreases lines.len(),
{
    if lines.len() == 0 {
        Some(Seq::empty())
    } else {
        let rest = spec_parse_listing(lines.drop_first());
        if lines[0].len() == 0 {
            rest
        } else {
            match listing_line_entry(lines[0]) {
                None => None,
                Some(e) => match rest {
                    None => None,
                    Some(s) => Some(seq![e] + s),
                },
            }
        }
    }
}

/// The views of a sequence of owned lines.
pub open spec fn line_views(lines: Seq<String>) -> Seq<Seq<char>> {
    lines.map_values(|s: String| s@)
}

/// The representations of a sequence of entries.
pub open spec fn entry_reprs(es: Seq<PlaylistEntry>) -> Seq<
    (Option<Seq<char>>, Option<Seq<char>>),
> {
    es.map_values(|e: PlaylistEntry| entry_repr(e))
}

/// Turns the resolver's listing lines into playlist entries, in source
/// order. Empty lines are passed over; the first line that is not valid
/// JSON fails the listing, and no entries are handed out.
pub fn parse_playlist_listing(lines: &Vec<String>) -> (r: Result<
    Vec<PlaylistEntry>,
    CommandError,
>)
    ensures
        match r {
            Ok(v) => spec_parse_listing(line_views(lines@)) == Some(entry_reprs(v@)),
            Err(e) => e is PlaylistResolutionFailed && spec_parse_listing(line_views(lines@))
                is None,
        },
{
    let ghost all: Seq<Seq<char>> = line_views(lines@);
    let mut out: Vec<PlaylistEntry> = Vec::new();
    let mut i: usize = 0;
    proof {
        assert(all.skip(0) =~= all);
        assert(entry_reprs(out@) =~= Seq::empty());
        if spec_parse_listing(all) is Some {
            let s = spec_parse_listing(all).unwrap();
            assert(entry_reprs(out@) + s =~= s);
        }
    }
    while i < lines.len()
        invariant
            i <= lines@.len(),
            all == line_views(lines@),
            spec_parse_listing(all) == (match spec_parse_listing(all.skip(i as int)) {
                None => None::<Seq<(Option<Seq<char>>, Option<Seq<char>>)>>,
                Some(s) => Some(entry_reprs(out@) + s),
            }),
        decreases lines@.len() - i,
    {
        proof {
            assert(all.skip(i as int).len() == all.len() - i);
            assert(all.skip(i as int)[0] == all[i as int]);
            assert(all.skip(i as int).drop_first() =~= all.skip(i as int + 1));
            assert(all[i as int] == lines@[i as int]@);
        }
        let line: &String = &lines[i];
        if !line.as_str().is_empty() {
            match parse_listing_line(line.as_str()) {
                Ok(e) => {
                    proof {
                        assert(entry_reprs(out@.push(e)) =~= entry_reprs(out@) + seq![
                            entry_repr(e),
                        ]);
                        if spec_parse_listing(all.skip(i as int + 1)) is Some {
                            let s = spec_parse_listing(all.skip(i as int + 1)).unwrap();
                            assert(entry_reprs(out@) + (seq![entry_repr(e)] + s) =~= (entry_reprs(
                                out@,
                            ) + seq![entry_repr(e)]) + s);
                        }
                    }
                    out.push(e);
                },
                Err(cause) => {
                    return Err(CommandError::PlaylistResolutionFailed(cause));
                },
            }
        }
        i = i + 1;
    }
    proof {
        assert(all.skip(i as int) =~= Seq::<Seq<char>>::empty());
        assert(entry_reprs(out@) + Seq::empty() =~= entry_reprs(out@));
    }
    Ok(out)
}

/// Parts a listing into the entry to resolve and enqueue at once and the
/// tail to park for lazy continuation. An empty listing is refused, with
/// nothing changed anywhere.
pub fn split_first_entry(entries: Vec<PlaylistEntry>) -> (r: Result<
    (PlaylistEntry, Vec<PlaylistEntry>),
    CommandError,
>)
    ensures
        match r {
            Ok(p) => entries@.len() > 0 && p.0 == entries@[0] && p.1@ == entries@.drop_first(),
            Err(e) => e is PlaylistResolutionFailed && entries@.len() == 0,
        },
{
    if entries.len() == 0 {
        Err(CommandError::PlaylistResolutionFailed("The playlist listing was empty.".to_owned()))
    } else {
        let mut rest = entries;
        let first = rest.remove(0);
        Ok((first, rest))
    }
}

} // verus!
