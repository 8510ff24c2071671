//! Spotify links: which track or playlist they name, and the search words for its tracks.
use vstd::prelude::*;
use vstd::string::*;
use crate::error::BotError;
use crate::patterns::{captured_views, regex_captures, regex_named_captures};
use crate::text::owned;

verus! {

/// The pattern that splits a Spotify address into media type and id.
pub open spec fn spotify_query_pattern() -> Seq<char> {
    "spotify.com/(?P<media_type>.+)/(?P<media_id>.*?)(?:\\?|$)"@
}

/// The suffix that steers a search towards the song itself.
pub open spec fn music_only_suffix() -> Seq<char> {
    "\\\"topic\\\""@
}

/// The names of the two groups of the pattern.
pub open spec fn group_names() -> Seq<Seq<char>> {
    seq!["media_type"@, "media_id"@]
}

/// The text of the error for an address that names neither a track nor a
/// playlist.
pub open spec fn invalid_query_text() -> Seq<char> {
    "Invalid spotify query"@
}

/// What a Spotify address names: a track or a playlist, by id.
#[derive(Clone, Debug)]
pub enum SpotifyMedia {
    Track(String),
    Playlist(String),
}

/// What a Spotify address names, as texts.
pub enum MediaView {
    Track(Seq<char>),
    Playlist(Seq<char>),
}

/// The view of a Spotify media.
pub open spec fn media_view(m: SpotifyMedia) -> MediaView {
    match m {
        SpotifyMedia::Track(id) => MediaView::Track(id@),
        SpotifyMedia::Playlist(id) => MediaView::Playlist(id@),
    }
}

/// What the captures of a Spotify address name: when the address matched
/// and both groups took part, a media type `track` names a track and
/// `playlist` a playlist, with the captured id; anything else is refused.
pub open spec fn media_spec(caps: Option<Seq<Option<Seq<char>>>>) -> Option<MediaView> {
    match caps {
        Some(groups) => if groups.len() == 2 && groups[1] is Some {
            if groups[0] == Some("track"@) {
                Some(MediaView::Track(groups[1]->0))
            } else if groups[0] == Some("playlist"@) {
                Some(MediaView::Playlist(groups[1]->0))
            } else {
                None
            }
        } else {
            None
        },
        None => None,
    }
}

fn invalid_query() -> (e: BotError)
    ensures
        e matches BotError::Generic(s) && s@ == invalid_query_text(),
{
    BotError::Generic(owned("Invalid spotify query"))
}

/// What the captures of a Spotify address (media type, then id) name.
pub fn media_from_captures(caps: Option<Vec<Option<String>>>) -> (r: Result<SpotifyMedia, BotError>)
    ensures
        match media_spec(match caps {
            Some(v) => Some(captured_views(v@)),
            None => None,
        }) {
            Some(m) => r matches Ok(x) && media_view(x) == m,
            None => r matches Err(e) && e matches BotError::Generic(s) && s@ == invalid_query_text(),
        },
{
    let groups = match caps {
        Some(g) => g,
        None => return Err(invalid_query()),
    };
    if groups.len() != 2 {
        return Err(invalid_query());
    }
    let media_type = match &groups[0] {
        Some(t) => t,
        None => return Err(invalid_query()),
    };
    let media_id = match &groups[1] {
        Some(i) => i,
        None => return Err(invalid_query()),
    };
    let track = owned("track");
    let playlist = owned("playlist");
    if *media_type == track {
        Ok(SpotifyMedia::Track(media_id.clone()))
    } else if *media_type == playlist {
        Ok(SpotifyMedia::Playlist(media_id.clone()))
    } else {
        Err(invalid_query())
    }
}

/// What a Spotify address names: a track or a playlist. An address that the
/// pattern does not split, or that names anything else, is refused with
/// "Invalid spotify query".
pub fn extract_media(url: &str) -> (r: Result<SpotifyMedia, BotError>)
    ensures
        match regex_named_captures(spotify_query_pattern(), url@, group_names()) {
            Some(caps) => match media_spec(caps) {
                Some(m) => r matches Ok(x) && media_view(x) == m,
                None => r matches Err(e) && e matches BotError::Generic(s) && s@ == invalid_query_text(),
            },
            None => r matches Err(e) && e matches BotError::Generic(s) && s@ == invalid_query_text(),
        },
{
    let mut names: Vec<String> = Vec::new();
    names.push(owned("media_type"));
    names.push(owned("media_id"));
    assert(names@.map_values(|n: String| n@) =~= group_names());
    match regex_captures("spotify.com/(?P<media_type>.+)/(?P<media_id>.*?)(?:\\?|$)", url, &names) {
        Some(caps) => media_from_captures(caps),
        None => Err(invalid_query()),
    }
}

/// Artists' names joined by single spaces.
pub open spec fn joined_names(names: Seq<Seq<char>>) -> Seq<char>
    decreases names.len(),
{
    if names.len() == 0 {
        Seq::empty()
    } else if names.len() == 1 {
        names[0]
    } else {
        joined_names(names.drop_last()) + " "@ + names.last()
    }
}

/// The artists of a track, joined by single spaces.
pub fn join_artists(names: &Vec<String>) -> (r: String)
    ensures
        r@ == joined_names(names@.map_values(|n: String| n@)),
{
    let ghost views = names@.map_values(|n: String| n@);
    let mut r = String::new();
    let mut i: usize = 0;
    while i < names.len()
        invariant
            i <= names@.len(),
            views == names@.map_values(|n: String| n@),
            r@ == joined_names(views.take(i as int)),
        decreases names@.len() - i,
    {
        if i > 0 {
            r.append(" ");
        }
        r.append(names[i].as_str());
        assert(views.take(i + 1).drop_last() =~= views.take(i as int));
        i = i + 1;
    }
    assert(views.take(names@.len() as int) =~= views);
    r
}

/// The search words for a track: artists, a dash, the title, and the suffix
/// that asks for the song itself.
pub open spec fn keyword_text(artists: Seq<char>, title: Seq<char>) -> Seq<char> {
    artists + " - "@ + title + " "@ + music_only_suffix()
}

/// The search words for a track.
pub fn build_keyword(artists: &str, title: &str) -> (r: String)
    ensures
        r@ == keyword_text(artists@, title@),
{
    let mut r = owned(artists);
    r.append(" - ");
    r.append(title);
    r.append(" ");
    r.append("\\\"topic\\\"");
    r
}

/// One entry of a playlist: a track with its artists' names and its title,
/// or `None` for an entry that is no track (an episode, or a removed item).
#[derive(Clone, Debug)]
pub struct PlaylistTrack {
    pub artists: Vec<String>,
    pub title: String,
}

/// The search words for a playlist track.
pub open spec fn track_keyword(t: PlaylistTrack) -> Seq<char> {
    keyword_text(joined_names(t.artists@.map_values(|n: String| n@)), t.title@)
}

/// The search words for each track of a playlist, in playlist order;
/// entries that are no track are left out.
pub open spec fn playlist_keyword_texts(items: Seq<Option<PlaylistTrack>>) -> Seq<Seq<char>>
    decreases items.len(),
{
    if items.len() == 0 {
        Seq::empty()
    } else {
        let rest = playlist_keyword_texts(items.drop_last());
        match items.last() {
            Some(t) => rest.push(track_keyword(t)),
            None => rest,
        }
    }
}

/// The search words for each track of a playlist, in playlist order.
pub fn playlist_keywords(items: &Vec<Option<PlaylistTrack>>) -> (r: Vec<String>)
    ensures
        r@.map_values(|k: String| k@) == playlist_keyword_texts(items@),
{
    let mut r: Vec<String> = Vec::new();
    let mut i: usize = 0;
    while i < items.len()
        invariant
            i <= items@.len(),
            r@.map_values(|k: String| k@) == playlist_keyword_texts(items@.take(i as int)),
        decreases items@.len() - i,
    {
        assert(items@.take(i + 1).drop_last() =~= items@.take(i as int));
        if let Some(t) = &items[i] {
            let artists = join_artists(&t.artists);
            let k = build_keyword(artists.as_str(), t.title.as_str());
            let ghost before = r@;
            r.push(k);
            assert(r@.map_values(|k: String| k@) =~= before.map_values(|k: String| k@).push(k@));
        }
        i = i + 1;
    }
    assert(items@.take(items@.len() as int) =~= items@);
    r
}

/// Where the next request for a playlist's items starts, if another is
/// needed: after a page of `fetched` entries read from `offset`, more are
/// asked for only when the service names a next page and this page was not
/// empty. An offset past `u32::MAX` cannot be asked for, so reading stops.
pub fn next_playlist_offset(offset: u32, fetched: usize, has_next: bool) -> (r: Option<u32>)
    ensures
        r == if has_next && fetched > 0 && offset + fetched <= u32::MAX {
            Some((offset + fetched) as u32)
        } else {
            None
        },
{
    if !has_next || fetched == 0 {
        return None;
    }
    if fetched > (u32::MAX - offset) as usize {
        return None;
    }
    Some(offset + fetched as u32)
}

} // verus!
