//! A yt-dlp handle for downloads: the program and the playlist command line.
use vstd::prelude::*;
use crate::sources::ytdl::{playlist_args, playlist_args_spec, texts};
use crate::text::owned;

verus! {

/// A yt-dlp handle: the program that is run.
pub struct Ytdl {
    program: String,
}

impl View for Ytdl {
    type V = Seq<char>;

    closed spec fn view(&self) -> Seq<char> {
        self.program@
    }
}

impl Ytdl {
    /// The handle for the `yt-dlp` program.
    pub fn new() -> (y: Ytdl)
        ensures
            y@ == "yt-dlp"@,
    {
        Ytdl::new_program("yt-dlp")
    }

    /// The handle for another program that speaks yt-dlp's language.
    pub fn new_program(program: &str) -> (y: Ytdl)
        ensures
            y@ == program@,
    {
        Ytdl { program: owned(program) }
    }

    /// The program that is run.
    pub fn program(&self) -> (r: &str)
        ensures
            r@ == self@,
    {
        self.program.as_str()
    }

    /// The arguments that list the items of `playlist`.
    pub fn playlist_items_args(&self, playlist: &str) -> (r: Vec<String>)
        ensures
            texts(r@) == playlist_args_spec(playlist@),
    {
        playlist_args(playlist)
    }
}

} // verus!
