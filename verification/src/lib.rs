//! Verified core of a Discord music and media bot: message building,
//! queue editing, query classification and request construction.
pub mod text;
pub mod error;
pub mod queue;
pub mod utils;
pub mod messages;
pub mod music;
pub mod api;
pub mod random;
pub mod patterns;
pub mod downloaders;
pub mod sources;
pub mod commands;
pub mod download;
pub mod database;
