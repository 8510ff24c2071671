//! Records kept about watched anime.
pub mod anime;
