//! The service's readiness, and what the health endpoint answers for it.
use vstd::prelude::*;

verus! {

/// Whether the chat client has finished connecting.
#[derive(Debug, Clone, Copy, PartialEq, Eq, Structural)]
pub enum BotStatus {
    Starting,
    Ready,
}

pub const HTTP_OK: u16 = 200;

pub const HTTP_INTERNAL_SERVER_ERROR: u16 = 500;

impl BotStatus {
    /// A one-byte code, for storage in an atomic cell.
    pub fn code(self) -> (r: u8)
        ensures
            r == (if self == BotStatus::Starting { 0u8 } else { 1u8 }),
    {
        match self {
            BotStatus::Starting => 0,
            BotStatus::Ready => 1,
        }
    }

    /// The status that `code` stands for; any code but 0 means ready.
    pub fn from_code(code: u8) -> (r: BotStatus)
        ensures
            r == (if code == 0 { BotStatus::Starting } else { BotStatus::Ready }),
    {
        if code == 0 {
            BotStatus::Starting
        } else {
            BotStatus::Ready
        }
    }

    /// The health endpoint's status code and body: a server error while
    /// starting, success once ready.
    pub fn health_reply(self) -> (r: (u16, &'static str))
        ensures
            self == BotStatus::Starting ==> r.0 == HTTP_INTERNAL_SERVER_ERROR && r.1@ == "Starting"@,
            self == BotStatus::Ready ==> r.0 == HTTP_OK && r.1@ == "Healthy"@,
    {
        match self {
            BotStatus::Starting => (HTTP_INTERNAL_SERVER_ERROR, "Starting"),
            BotStatus::Ready => (HTTP_OK, "Healthy"),
        }
    }
}

/// Why a reaction does not ask for a reply to be deleted.
#[derive(Debug, Clone, Copy, PartialEq, Eq, Structural)]
pub enum ReactionRejection {
    /// The reaction is on a message that the bot did not write.
    NotMyMessage,
    /// The reaction is not the configured delete reaction.
    InvalidEmoji,
    /// The bot's message replies to nothing.
    NoReply,
    /// The user who reacted did not write the message replied to.
    NotOriginalAuthor,
}

/// Decides whether a reaction deletes the bot's reply. It does when the
/// reaction is on the bot's own message, is the configured emoji, and comes
/// from the author of the message that the bot replied to
/// (`replied_author_reacted` is `None` when there is no such message). The
/// checks are made in that order and the first that fails is reported.
pub fn check_delete_request(on_own_message: bool, emoji_matches: bool, replied_author_reacted: Option<bool>) -> (r:
    Result<(), ReactionRejection>)
    ensures
        !on_own_message ==> r == Err::<(), ReactionRejection>(ReactionRejection::NotMyMessage),
        on_own_message && !emoji_matches ==> r == Err::<(), ReactionRejection>(ReactionRejection::InvalidEmoji),
        on_own_message && emoji_matches && replied_author_reacted is None ==> r == Err::<(), ReactionRejection>(
            ReactionRejection::NoReply,
        ),
        on_own_message && emoji_matches && replied_author_reacted == Some(false) ==> r == Err::<
            (),
            ReactionRejection,
        >(ReactionRejection::NotOriginalAuthor),
        on_own_message && emoji_matches && replied_author_reacted == Some(true) ==> r is Ok,
{
    if !on_own_message {
        Err(ReactionRejection::NotMyMessage)
    } else if !emoji_matches {
        Err(ReactionRejection::InvalidEmoji)
    } else {
        match replied_author_reacted {
            None => Err(ReactionRejection::NoReply),
            Some(false) => Err(ReactionRejection::NotOriginalAuthor),
            Some(true) => Ok(()),
        }
    }
}

} // verus!
