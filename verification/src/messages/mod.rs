//! Messages shown to users: plain texts, embeds and the parameters that
//! decide how they are sent.
pub mod common;
pub mod factory;
pub mod message;

pub use message::{Colour, CreateEmbed, EmbedAuthor, EmbedField, Message, MessageParams, Reply};
