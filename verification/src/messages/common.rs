//! The plain error and success notices.
use vstd::prelude::*;
use crate::messages::message::{dark_green, empty_embed, red, CreateEmbed, EmbedView, Message};
use crate::text::owned;

verus! {

/// The notice for an error: red, with the text marked and in bold.
pub fn error_embed(message: &str) -> (e: CreateEmbed)
    ensures
        e@ == (EmbedView {
            colour: Some(red()),
            description: Some("❗ **"@ + message@ + "**"@),
            ..empty_embed()
        }),
{
    Message::Error(owned(message)).into_embed()
}

/// The notice for a success: dark green, with the text marked and in bold.
pub fn success_embed(message: &str) -> (e: CreateEmbed)
    ensures
        e@ == (EmbedView {
            colour: Some(dark_green()),
            description: Some("✅ **"@ + message@ + "**"@),
            ..empty_embed()
        }),
{
    Message::Success(owned(message)).into_embed()
}

} // verus!
