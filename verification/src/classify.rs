//! Query classification. The core, not the resolver, decides what a query
//! string is: a syntactically valid absolute URL whose query carries a
//! playlist-identifying parameter is a playlist, any other absolute URL is a
//! direct track, and anything else is a search.

use vstd::prelude::*;

verus! {

/// The query parameter key that marks a URL as a playlist listing.
pub const PLAYLIST_PARAM: &'static str = "list";

/// What a query string asks for.
pub enum QueryType {
    /// An absolute URL carrying the playlist-identifying query parameter.
    Playlist,
    /// Any other syntactically valid absolute URL.
    Direct,
    /// Anything that is not an absolute URL: free text for the resolver.
    Search,
}

/// Whether `url::Url::parse` accepts the string as an absolute URL; a
/// function of the string alone.
pub uninterp spec fn is_absolute_url(s: Seq<char>) -> bool;

/// The decoded keys of the URL's query parameters, in order, as
/// `url::Url::query_pairs` yields them; a function of the string alone.
/// Meaningful only when `is_absolute_url` holds of the string.
pub uninterp spec fn url_query_keys(s: Seq<char>) -> Seq<Seq<char>>;

/// Relies on `url::Url::parse`, which accepts exactly the syntactically
/// valid absolute URLs, and `url::Url::query_pairs`, which decodes the
/// query into ordered key-value pairs; both depend on the string alone.
#[verifier::external_body]
fn query_param_keys(s: &str) -> (r: Option<Vec<String>>)
    ensures
        r is Some <==> is_absolute_url(s@),
        r matches Some(keys) ==> {
            &&& keys@.len() == url_query_keys(s@).len()
            &&& forall|i: int| 0 <= i < keys@.len() ==> keys@[i]@ == url_query_keys(s@)[i]
        },
{
    match url::Url::parse(s) {
        Ok(u) => Some(u.query_pairs().map(|p| p.0.into_owned()).collect()),
        Err(_) => None,
    }
}

/// The classification of a query string.
pub open spec fn spec_classify(s: Seq<char>) -> QueryType {
    if is_absolute_url(s) {
        if url_query_keys(s).contains(PLAYLIST_PARAM@) {
            QueryType::Playlist
        } else {
            QueryType::Direct
        }
    } else {
        QueryType::Search
    }
}

/// Classifies a query string, as the resolver boundary expects the core to
/// have done before asking it to resolve anything.
pub fn classify_query(q: &str) -> (r: QueryType)
    ensures
        r == spec_classify(q@),
{
    match query_param_keys(q) {
        None => QueryType::Search,
        Some(keys) => {
            let needle: String = PLAYLIST_PARAM.to_owned();
            let mut found = false;
            let mut i: usize = 0;
            while i < keys.len()
                invariant
                    i <= keys@.len(),
                    keys@.len() == url_query_keys(q@).len(),
                    forall|j: int| 0 <= j < keys@.len() ==> keys@[j]@ == url_query_keys(q@)[j],
                    needle@ == PLAYLIST_PARAM@,
                    found <==> exists|j: int|
                        0 <= j < i && url_query_keys(q@)[j] == PLAYLIST_PARAM@,
                decreases keys@.len() - i,
            {
                let k: &String = &keys[i];
                let hit = k.eq(&needle);
                if hit {
                    found = true;
                }
                proof {
                    if hit {
                        assert(url_query_keys(q@)[i as int] == PLAYLIST_PARAM@);
                        assert(exists|j: int|
                            0 <= j < i + 1 && url_query_keys(q@)[j] == PLAYLIST_PARAM@);
                    } else {
                        assert(forall|j: int|
                            0 <= j < i + 1 && url_query_keys(q@)[j] == PLAYLIST_PARAM@
                                ==> 0 <= j < i);
                    }
                }
                i = i + 1;
            }
            if found {
                QueryType::Playlist
            } else {
                QueryType::Direct
            }
        },
    }
}

} // verus!
