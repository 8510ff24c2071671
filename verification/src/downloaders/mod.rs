//! Downloading with yt-dlp.
pub mod ytdl;
