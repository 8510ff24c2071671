//! Where tracks come from: yt-dlp and Spotify.
pub mod spotify;
pub mod ytdl;
