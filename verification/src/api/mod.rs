//! Requests to the web services the bot uses, and the data they send back.
pub mod cats;
pub mod coomer;
pub mod dogs;
pub mod error;
pub mod redgifs;
pub mod waifu;

pub use error::ApiError;
