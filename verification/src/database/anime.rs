//! A watched anime, as stored.
use vstd::prelude::*;

verus! {

/// An anime that a server has watched.
#[derive(Clone, Debug)]
pub struct WatchedAnime {
    pub id: i64,
    pub watched_anime: String,
    pub guild_id: i64,
}

} // verus!
