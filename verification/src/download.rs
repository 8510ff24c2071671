//! The video command: where yt-dlp writes the download, how the file is
//! found again, and the texts the command answers with.
use vstd::prelude::*;
use vstd::string::*;
use crate::text::{contains_text, decimal, decimal_string, owned, str_contains};

verus! {

/// The name a download is saved under, made unique by the number `n`
/// (drawn at random by the caller).
pub fn video_file_name(n: u64) -> (r: String)
    ensures
        r@ == "video_"@ + decimal(n as nat),
{
    let mut r = owned("video_");
    let d = decimal_string(n);
    r.append(d.as_str());
    r
}

/// The path yt-dlp is told to write to: the directory, a slash, the name.
pub fn download_path(dir: &str, name: &str) -> (r: String)
    ensures
        r@ == dir@ + "/"@ + name@,
{
    let mut r = owned(dir);
    r.append("/");
    r.append(name);
    r
}

/// The arguments of the yt-dlp run: the address, then `-o` and the path.
pub fn download_args(url: &str, path: &str) -> (r: Vec<String>)
    ensures
        r@.map_values(|a: String| a@) == seq![url@, "-o"@, path@],
{
    let mut r: Vec<String> = Vec::new();
    r.push(owned(url));
    r.push(owned("-o"));
    r.push(owned(path));
    assert(r@.map_values(|a: String| a@) =~= seq![url@, "-o"@, path@]);
    r
}

/// Whether a file of the download directory is the download: its name holds
/// the name that yt-dlp was given (yt-dlp adds the extension).
pub fn is_download_of(file_name: &str, name: &str) -> (r: bool)
    ensures
        r == contains_text(file_name@, name@),
{
    str_contains(file_name, name)
}

/// The error of a failed download: what yt-dlp wrote to its error output,
/// when that could be read.
pub fn download_failure(stderr: Option<String>) -> (r: String)
    ensures
        match stderr {
            Some(e) => r@ == "Download failed: "@ + e@,
            None => r@ == "Download failed"@,
        },
{
    match stderr {
        Some(e) => {
            let mut r = owned("Download failed: ");
            r.append(e.as_str());
            r
        },
        None => owned("Download failed"),
    }
}

/// The error when yt-dlp cannot be started.
pub fn missing_downloader() -> (r: String)
    ensures
        r@ == "yt-dlp is not installed"@,
{
    owned("yt-dlp is not installed")
}

/// The notice sent while the download runs.
pub fn waiting_notice() -> (r: String)
    ensures
        r@ == "Just a second, i'm getting the sauce"@,
{
    owned("Just a second, i'm getting the sauce")
}

/// The error when no file of the directory is the download.
pub fn not_downloaded() -> (r: String)
    ensures
        r@ == "Video not properly downloaded, something went wrong"@,
{
    owned("Video not properly downloaded, something went wrong")
}

/// The name the video is sent under.
pub fn attachment_name(name: &str) -> (r: String)
    ensures
        r@ == name@ + ".mp4"@,
{
    let mut r = owned(name);
    r.append(".mp4");
    r
}

/// The text sent with the video.
pub fn sent_by(author: &str) -> (r: String)
    ensures
        r@ == "Sent by "@ + author@,
{
    let mut r = owned("Sent by ");
    r.append(author);
    r
}

} // verus!
