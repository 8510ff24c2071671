//! Errors of the music commands.
use vstd::prelude::*;
use crate::text::owned;

verus! {

/// Why a track could not be played.
#[derive(Clone, Copy, Debug, PartialEq, Eq)]
pub enum MusicError {
    /// A search found nothing.
    SearchNotFound,
    /// The link cannot be used.
    InvalidLink,
    /// The track's data could not be fetched.
    TrackFetch,
}

/// The text shown for a music error.
pub open spec fn music_error_text(e: MusicError) -> Seq<char> {
    match e {
        MusicError::SearchNotFound => "No such bullshit found"@,
        MusicError::InvalidLink => "Invalid link"@,
        MusicError::TrackFetch => "Unable to fetch track.\n        Prolly youtube is blocking me again due to too many requests.\n        FUCK YOU YOUTUBE, YOU CAN SUCK MY DICK. 🖕"@,
    }
}

impl MusicError {
    /// The text shown for this error.
    pub fn message(&self) -> (r: String)
        ensures
            r@ == music_error_text(*self),
    {
        match self {
            MusicError::SearchNotFound => owned("No such bullshit found"),
            MusicError::InvalidLink => owned("Invalid link"),
            MusicError::TrackFetch => owned("Unable to fetch track.\n        Prolly youtube is blocking me again due to too many requests.\n        FUCK YOU YOUTUBE, YOU CAN SUCK MY DICK. 🖕"),
        }
    }
}

} // verus!
