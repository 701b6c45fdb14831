//! The fixed decisions at the chat-gateway boundary.
//!
//! Before any session work, an inbound message is triaged: bots are never
//! answered, public channels get a fixed refusal, and only private messages
//! from people reach the core.  The fixed notices the gateway sends — for
//! each authentication outcome, for a failed or timed-out completion, and on
//! first contact — are decided here, so the transport glue around the crate
//! carries no wording of its own.

use vstd::prelude::*;

use crate::auth::AuthResult;
use crate::session::MessageReply;

verus! {

/// What to do with an inbound message before any session work.
#[derive(Clone, Copy, Debug, PartialEq, Eq, Structural)]
pub enum InboundDecision {
    /// Authored by a bot: never answered.
    Ignore,
    /// Not a private exchange: a fixed refusal, and the core is never reached.
    PublicRefusal,
    /// A private message from a person: handled.
    Engage,
}

/// Triage of one inbound message.
pub fn triage(author_is_bot: bool, is_private: bool) -> (d: InboundDecision)
    ensures
        author_is_bot ==> d == InboundDecision::Ignore,
        !author_is_bot && !is_private ==> d == InboundDecision::PublicRefusal,
        !author_is_bot && is_private ==> d == InboundDecision::Engage,
{
    if author_is_bot {
        InboundDecision::Ignore
    } else if !is_private {
        InboundDecision::PublicRefusal
    } else {
        InboundDecision::Engage
    }
}

/// The refusal a non-private message receives.
pub fn public_refusal_notice() -> (s: &'static str)
    ensures
        s@ == "I'm shy, so I don't talk in public! Message me directly to chat :)"@,
{
    "I'm shy, so I don't talk in public! Message me directly to chat :)"
}

/// The text each authentication outcome earns.
pub open spec fn spec_auth_outcome_text(outcome: AuthResult) -> Seq<char> {
    match outcome {
        AuthResult::Success => "Looks good! Your user is now authenticated :D"@,
        AuthResult::InvalidToken =>
            "Unfortunately, your token appears to be invalid or has already been used before.\n\nAre you sure you entered it correctly?"@,
        AuthResult::MalformedTokenRequest =>
            "Hey there!\n\nUnfortunately, you are not authenticated yet. Please paste in your authentication token in the following format:\n\n`!token YOUR_TOKEN`"@,
    }
}

/// The threaded reply to an authentication attempt.
pub fn auth_outcome_reply(outcome: AuthResult) -> (r: MessageReply)
    ensures
        r.channel is None,
        match r.reply {
            Some(s) => s@ == spec_auth_outcome_text(outcome),
            None => false,
        },
{
    match outcome {
        AuthResult::Success => MessageReply::reply(
            "Looks good! Your user is now authenticated :D".to_owned(),
        ),
        AuthResult::InvalidToken => MessageReply::reply(
            "Unfortunately, your token appears to be invalid or has already been used before.\n\nAre you sure you entered it correctly?".to_owned(),
        ),
        AuthResult::MalformedTokenRequest => MessageReply::reply(
            "Hey there!\n\nUnfortunately, you are not authenticated yet. Please paste in your authentication token in the following format:\n\n`!token YOUR_TOKEN`".to_owned(),
        ),
    }
}

/// The apology sent when the completion collaborator failed.
pub fn completion_failure_reply() -> (r: MessageReply)
    ensures
        r.channel is None,
        match r.reply {
            Some(s) => s@
                == "I'm sorry, I don't understand :(\n\n_Something went wrong whilst communicating with Gnome Chompski. Please restate your reply and try again._"@,
            None => false,
        },
{
    MessageReply::reply(
        "I'm sorry, I don't understand :(\n\n_Something went wrong whilst communicating with Gnome Chompski. Please restate your reply and try again._".to_owned(),
    )
}

/// The apology sent when handling a message ran out of time.
pub fn timeout_reply() -> (r: MessageReply)
    ensures
        r.channel is None,
        match r.reply {
            Some(s) => s@
                == "...I'm sorry, I wasn't paying attention. What were we talking about?\n\n_ChatGPT request timed out. Please write your reply again._\n"@,
            None => false,
        },
{
    MessageReply::reply(
        "...I'm sorry, I wasn't paying attention. What were we talking about?\n\n_ChatGPT request timed out. Please write your reply again._\n".to_owned(),
    )
}

/// The notice sent when a user's first message of the session arrives.
pub fn first_contact_notice() -> (s: &'static str)
    ensures
        s@ == "_This is your first message of the session. Did Gnome Chompski just wake up?_"@,
{
    "_This is your first message of the session. Did Gnome Chompski just wake up?_"
}

} // verus!
