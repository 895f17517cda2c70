//! The normalized inbound event, the commands derived from a message text,
//! and the privilege check that gates the test-purchase command.

use vstd::prelude::*;
use crate::text::{ci_eq, eq_ignore_ascii_case, first_token, opt_str_view};

verus! {

/// One normalized inbound platform event, produced by the ingestion
/// transport and consumed exactly once by the router. Anything that is not
/// an actionable text message or a completed payment arrives as `Other`.
pub enum InboundEvent {
    TextMessage { chat_id: i64, sender_username: Option<String>, text: String },
    PaymentCompleted { chat_id: i64, payment_details: String },
    Other,
}

/// Ghost image of an [`InboundEvent`], with strings seen as character
/// sequences.
#[verifier::ext_equal]
pub ghost enum EventV {
    Text { chat: int, user: Option<Seq<char>>, text: Seq<char> },
    Payment { chat: int, details: Seq<char> },
    Other,
}

impl View for InboundEvent {
    type V = EventV;

    open spec fn view(&self) -> EventV {
        match *self {
            InboundEvent::TextMessage { chat_id, sender_username, text } => EventV::Text {
                chat: chat_id as int,
                user: opt_str_view(sender_username),
                text: text@,
            },
            InboundEvent::PaymentCompleted { chat_id, payment_details } => EventV::Payment {
                chat: chat_id as int,
                details: payment_details@,
            },
            InboundEvent::Other => EventV::Other,
        }
    }
}

/// The sender username of an event, where it has one.
pub open spec fn event_user(e: EventV) -> Option<Seq<char>> {
    match e {
        EventV::Text { user, .. } => user,
        _ => None,
    }
}

/// The commands the bot recognizes.
pub enum Command {
    Start,
    Buy,
    TestBuy,
}

pub open spec fn start_command() -> Seq<char> {
    seq!['/', 's', 't', 'a', 'r', 't']
}

pub open spec fn buy_command() -> Seq<char> {
    seq!['/', 'b', 'u', 'y']
}

pub open spec fn test_buy_command() -> Seq<char> {
    seq!['/', 't', 'e', 's', 't', '_', 'b', 'u', 'y']
}

/// A token is a bot-command marker exactly when it carries the leading
/// command prefix of the platform.
pub open spec fn is_command_token(tok: Seq<char>) -> bool {
    tok.len() > 0 && tok[0] == '/'
}

/// The command carried by a message text: the first whitespace-delimited
/// token, provided it is a command marker and one of the recognized
/// commands. Any other text carries no command.
pub open spec fn command_of(text: Seq<char>) -> Option<Command> {
    let tok = first_token(text);
    if !is_command_token(tok) {
        None
    } else if tok == start_command() {
        Some(Command::Start)
    } else if tok == buy_command() {
        Some(Command::Buy)
    } else if tok == test_buy_command() {
        Some(Command::TestBuy)
    } else {
        None
    }
}

/// Privilege holds exactly when the sender has a username and it equals the
/// configured superuser name up to ASCII case.
pub open spec fn spec_privilege(user: Option<Seq<char>>, superuser: Seq<char>) -> bool {
    match user {
        Some(u) => ci_eq(u, superuser),
        None => false,
    }
}

/// Decides privilege for a sender against the configured superuser name.
pub fn privilege_of(sender_username: &Option<String>, superuser: &str) -> (p: bool)
    ensures
        p == spec_privilege(opt_str_view(*sender_username), superuser@),
{
    match sender_username {
        Some(u) => eq_ignore_ascii_case(u.as_str(), superuser),
        None => false,
    }
}

} // verus!
