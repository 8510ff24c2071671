//! What is known of a queued track, and what a play request asks for.
use vstd::prelude::*;
use vstd::string::*;
use crate::text::owned;

verus! {

/// What a play request asks for.
#[derive(Clone, Debug)]
pub enum QueryType {
    /// Words to search for.
    Keywords(String),
    /// Several searches, one per entry.
    KeywordsList(Vec<String>),
    /// A link to one track.
    TrackLink(String),
    /// A link to a playlist.
    PlaylistLink(String),
}

/// What is known of a queued track. The duration is in whole seconds.
pub struct TrackInfo {
    pub url: String,
    pub artist: String,
    pub title: String,
    pub duration: Option<u64>,
    pub thumbnail: String,
}

/// The name under which a track is listed: artist, a dash, and title.
pub open spec fn full_name_of(artist: Seq<char>, title: Seq<char>) -> Seq<char> {
    artist + " - "@ + title
}

impl TrackInfo {
    /// The name under which the track is listed, `"{artist} - {title}"`.
    pub fn full_name(&self) -> (r: String)
        ensures
            r@ == full_name_of(self.artist@, self.title@),
    {
        let mut r = self.artist.clone();
        r.append(" - ");
        r.append(self.title.as_str());
        r
    }
}

/// What is known of a track from its metadata: an unknown title reads
/// "Unknown", a missing artist or thumbnail is empty text.
pub fn track_info_from_metadata(url: String, artist: Option<String>, title: Option<String>, thumbnail: Option<String>, duration: Option<u64>) -> (t: TrackInfo)
    ensures
        t.url == url,
        t.artist@ == match artist { Some(a) => a@, None => Seq::<char>::empty() },
        t.title@ == match title { Some(x) => x@, None => "Unknown"@ },
        t.thumbnail@ == match thumbnail { Some(x) => x@, None => Seq::<char>::empty() },
        t.duration == duration,
{
    TrackInfo {
        url,
        artist: match artist { Some(a) => a, None => String::new() },
        title: match title { Some(x) => x, None => owned("Unknown") },
        thumbnail: match thumbnail { Some(x) => x, None => String::new() },
        duration,
    }
}

impl Clone for TrackInfo {
    fn clone(&self) -> (r: Self)
        ensures
            r == *self,
    {
        TrackInfo {
            url: self.url.clone(),
            artist: self.artist.clone(),
            title: self.title.clone(),
            duration: self.duration,
            thumbnail: self.thumbnail.clone(),
        }
    }
}

} // verus!
