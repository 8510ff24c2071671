//! Playing music: what a request asks for and how it is served.
pub mod error;
pub mod types;

use vstd::prelude::*;
use vstd::string::*;
use crate::patterns::{parse_url, regex_is_match, url_parts};
use crate::text::contains_text;
use crate::text::owned;
use error::MusicError;
use types::QueryType;

verus! {

/// The pattern that marks the address of a playlist.
pub open spec fn playlist_marker() -> Seq<char> {
    "list="@
}

/// A classified request: ready to serve, or a Spotify address whose track
/// still has to be looked up (given as the parsed address).
#[derive(Clone, Debug)]
pub enum QueryMatch {
    Ready(QueryType),
    Spotify(String),
}

/// What a request is taken for, as texts.
pub enum QueryClass {
    Words(Seq<char>),
    Track(Seq<char>),
    Playlist(Seq<char>),
    SpotifyLink(Seq<char>),
    Other,
}

/// The class of a classified request.
pub open spec fn class_of(m: QueryMatch) -> QueryClass {
    match m {
        QueryMatch::Spotify(s) => QueryClass::SpotifyLink(s@),
        QueryMatch::Ready(QueryType::Keywords(s)) => QueryClass::Words(s@),
        QueryMatch::Ready(QueryType::TrackLink(s)) => QueryClass::Track(s@),
        QueryMatch::Ready(QueryType::PlaylistLink(s)) => QueryClass::Playlist(s@),
        QueryMatch::Ready(QueryType::KeywordsList(_)) => QueryClass::Other,
    }
}

/// How a request is classified, from the request and its parse as a web
/// address: not an address means words to search for; an address without a
/// domain is refused; a Spotify address is looked up (as the parser wrote
/// it); an address holding `list=` is a playlist; any other address is a
/// track.
pub open spec fn classify_spec(query: Seq<char>, parsed: Option<(Seq<char>, Option<Seq<char>>)>) -> Result<QueryClass, MusicError> {
    match parsed {
        None => Ok(QueryClass::Words(query)),
        Some((serialized, domain)) => match domain {
            None => Err(MusicError::InvalidLink),
            Some(d) => if d == "open.spotify.com"@ {
                Ok(QueryClass::SpotifyLink(serialized))
            } else if contains_text(query, playlist_marker()) {
                Ok(QueryClass::Playlist(query))
            } else {
                Ok(QueryClass::Track(query))
            },
        },
    }
}

/// A classified request seen as its class.
pub open spec fn result_class(r: Result<QueryMatch, MusicError>) -> Result<QueryClass, MusicError> {
    match r {
        Ok(m) => Ok(class_of(m)),
        Err(e) => Err(e),
    }
}

/// Classifies a request, given how it parses as a web address.
pub fn classify_query(query: String, parsed: Option<(String, Option<String>)>) -> (r: Result<QueryMatch, MusicError>)
    ensures
        result_class(r) == classify_spec(query@, match parsed {
            None => None,
            Some((s, None)) => Some((s@, None)),
            Some((s, Some(d))) => Some((s@, Some(d@))),
        }),
{
    match parsed {
        None => Ok(QueryMatch::Ready(QueryType::Keywords(query))),
        Some((serialized, domain)) => match domain {
            None => Err(MusicError::InvalidLink),
            Some(d) => {
                let spotify = owned("open.spotify.com");
                if d == spotify {
                    Ok(QueryMatch::Spotify(serialized))
                } else {
                    proof {
                        reveal_strlit("list=");
                    }
                    let playlist = regex_is_match("list=", query.as_str());
                    if playlist == Some(true) {
                        Ok(QueryMatch::Ready(QueryType::PlaylistLink(query)))
                    } else {
                        Ok(QueryMatch::Ready(QueryType::TrackLink(query)))
                    }
                }
            },
        },
    }
}

/// Classifies a request: parses it as a web address and decides as
/// `classify_spec` says.
pub fn match_query(query: String) -> (r: Result<QueryMatch, MusicError>)
    ensures
        result_class(r) == classify_spec(query@, url_parts(query@)),
{
    let parsed = parse_url(query.as_str());
    classify_query(query, parsed)
}

/// A web address whose domain is not Spotify's is a playlist exactly when
/// the text of the request holds `list=` at some position (wherever it
/// stands, whatever comes before it), and a single track otherwise; in both
/// cases the request is kept as it was written.
pub proof fn lemma_playlist_marker(query: Seq<char>, serialized: Seq<char>, domain: Seq<char>)
    requires
        domain != "open.spotify.com"@,
    ensures
        (exists|i: int| 0 <= i && i + 5 <= query.len() && #[trigger] query.subrange(i, i + 5) == seq!['l', 'i', 's', 't', '='])
            ==> classify_spec(query, Some((serialized, Some(domain)))) == Ok::<QueryClass, MusicError>(QueryClass::Playlist(query)),
        !(exists|i: int| 0 <= i && i + 5 <= query.len() && #[trigger] query.subrange(i, i + 5) == seq!['l', 'i', 's', 't', '='])
            ==> classify_spec(query, Some((serialized, Some(domain)))) == Ok::<QueryClass, MusicError>(QueryClass::Track(query)),
{
    reveal_strlit("list=");
    assert(playlist_marker() =~= seq!['l', 'i', 's', 't', '=']);
    if exists|i: int| 0 <= i && i + 5 <= query.len() && #[trigger] query.subrange(i, i + 5) == seq!['l', 'i', 's', 't', '='] {
        let i = choose|i: int| 0 <= i && i + 5 <= query.len() && #[trigger] query.subrange(i, i + 5) == seq!['l', 'i', 's', 't', '='];
        assert(crate::text::occurs_at(query, playlist_marker(), i));
    } else {
        assert forall|i: int| !crate::text::occurs_at(query, playlist_marker(), i) by {
            if crate::text::occurs_at(query, playlist_marker(), i) {
                assert(query.subrange(i, i + 5) == seq!['l', 'i', 's', 't', '=']);
            }
        }
    }
}

/// What the play command does for a request.
#[derive(Clone, Debug)]
pub enum PlayStep {
    /// Queue this track; announce it when it does not start right away.
    Enqueue { url: String, announce: bool },
    /// Queue every item of this playlist, then announce how many came in.
    EnqueuePlaylist(String),
    /// Search for these words and queue the first result; announce it when it
    /// does not start right away.
    Search { keywords: String, announce: bool },
}

/// Decides the play command for a classified request and the length of the
/// queue before it: an added track is announced only when something is
/// queued already (otherwise it starts playing at once).
pub fn plan_play(query: QueryType, queue_len: usize) -> (r: PlayStep)
    requires
        !(query is KeywordsList),
    ensures
        match query {
            QueryType::TrackLink(u) => r == PlayStep::Enqueue { url: u, announce: queue_len >= 1 },
            QueryType::PlaylistLink(u) => r == PlayStep::EnqueuePlaylist(u),
            QueryType::Keywords(k) => r == PlayStep::Search { keywords: k, announce: queue_len >= 1 },
            QueryType::KeywordsList(_) => false,
        },
{
    match query {
        QueryType::TrackLink(u) => PlayStep::Enqueue { url: u, announce: queue_len >= 1 },
        QueryType::PlaylistLink(u) => PlayStep::EnqueuePlaylist(u),
        QueryType::Keywords(k) => PlayStep::Search { keywords: k, announce: queue_len >= 1 },
        QueryType::KeywordsList(_) => PlayStep::EnqueuePlaylist(String::new()),
    }
}

} // verus!
