//! Answers of the redgifs service that the library reads.
use vstd::prelude::*;

verus! {

/// The answer to a request for temporary access.
#[derive(Clone, Debug)]
pub struct TemporaryAccessResponse {
    pub token: String,
    pub addr: String,
    pub agent: String,
    pub session: String,
    pub rtfm: String,
}

/// The addresses of one clip in its several forms.
#[derive(Clone, Debug)]
pub struct MediaInfo {
    pub sd: Option<String>,
    pub hd: Option<String>,
    pub gif: Option<String>,
    pub poster: Option<String>,
    pub thumbnail: Option<String>,
    pub vthumbnail: Option<String>,
}

/// An error answer.
#[derive(Clone, Debug)]
pub struct Error {
    pub error: ErrorInfo,
}

/// What an error answer says.
#[derive(Clone, Debug)]
pub struct ErrorInfo {
    pub code: String,
    pub message: String,
    pub status: u32,
}

} // verus!
