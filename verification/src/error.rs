//! Errors that commands report back to the user.
use vstd::prelude::*;
use vstd::string::*;
use crate::text::owned;

verus! {

/// What went wrong while serving a command.
#[derive(Clone, Debug)]
pub enum BotError {
    /// The command was used outside of a server.
    GuildOnly,
    /// The author is not connected to a voice channel.
    NotInVoice,
    /// The bot is not connected to a voice channel of the server.
    BotNotInVoice,
    /// A key the bot needs to reach a service is not configured; carries the
    /// name of the missing setting.
    ApiKeyMissing(String),
    /// A service was asked before the bot had signed in to it.
    AuthError,
    /// Any other failure, carrying the text shown to the user.
    Generic(String),
}

/// The text shown for an error.
pub open spec fn bot_error_text(e: BotError) -> Seq<char> {
    match e {
        BotError::GuildOnly => "Command can be used only on a server"@,
        BotError::NotInVoice => "You have to be in a voice channel"@,
        BotError::BotNotInVoice => "Bot is not in a voice channel"@,
        BotError::ApiKeyMissing(k) => "Missing API key: "@ + k@,
        BotError::AuthError => "The bot is not signed in to the service"@,
        BotError::Generic(s) => s@,
    }
}

impl BotError {
    /// The text shown for this error.
    pub fn message(&self) -> (r: String)
        ensures
            r@ == bot_error_text(*self),
    {
        match self {
            BotError::GuildOnly => owned("Command can be used only on a server"),
            BotError::NotInVoice => owned("You have to be in a voice channel"),
            BotError::BotNotInVoice => owned("Bot is not in a voice channel"),
            BotError::ApiKeyMissing(k) => {
                let mut s = owned("Missing API key: ");
                s.append(k.as_str());
                s
            },
            BotError::AuthError => owned("The bot is not signed in to the service"),
            BotError::Generic(s) => s.clone(),
        }
    }
}

} // verus!
