//! The command router: a pure decision function from one inbound event and
//! the sender's privilege to exactly one outbound action.

use vstd::prelude::*;
use crate::event::{
    buy_command, command_of, event_user, spec_privilege, start_command, test_buy_command, Command,
    EventV, InboundEvent,
};
use crate::event::privilege_of;
use crate::text::{first_token, first_token_of, str_eq};

verus! {

/// The one terminal action the router picks for an event. `NoOp` covers
/// unrecognized text, denied privileged commands and non-actionable events
/// alike: the sender gets no feedback in any of these cases.
pub enum Action {
    SendGreeting { target: i64 },
    SendInvoice { target: i64 },
    FetchAndSendCredential { target: i64, user_id: String },
    NoOp,
}

/// Ghost image of an [`Action`].
#[verifier::ext_equal]
pub ghost enum ActionV {
    SendGreeting { target: int },
    SendInvoice { target: int },
    FetchAndSendCredential { target: int, user_id: Seq<char> },
    NoOp,
}

impl View for Action {
    type V = ActionV;

    open spec fn view(&self) -> ActionV {
        match *self {
            Action::SendGreeting { target } => ActionV::SendGreeting { target: target as int },
            Action::SendInvoice { target } => ActionV::SendInvoice { target: target as int },
            Action::FetchAndSendCredential { target, user_id } =>
                ActionV::FetchAndSendCredential {
                target: target as int,
                user_id: user_id@,
            },
            Action::NoOp => ActionV::NoOp,
        }
    }
}

/// The fixed user identifier handed to the credential broker, both on the
/// privileged test purchase and on payment completion. That the payment
/// path does not derive the payer's identity from the payment context is a
/// known gap of the current design.
pub open spec fn fixed_user_id() -> Seq<char> {
    seq!['1']
}

/// The routing decision: which action an event yields under a given
/// privilege.
pub open spec fn spec_route(e: EventV, privilege: bool) -> ActionV {
    match e {
        EventV::Other => ActionV::NoOp,
        EventV::Payment { chat, .. } => ActionV::FetchAndSendCredential {
            target: chat,
            user_id: fixed_user_id(),
        },
        EventV::Text { chat, text, .. } => match command_of(text) {
            Some(Command::Start) => ActionV::SendGreeting { target: chat },
            Some(Command::Buy) => ActionV::SendInvoice { target: chat },
            Some(Command::TestBuy) => if privilege {
                ActionV::FetchAndSendCredential { target: chat, user_id: fixed_user_id() }
            } else {
                ActionV::NoOp
            },
            None => ActionV::NoOp,
        },
    }
}

/// Routes one event to its action. Classification itself never fails: every
/// event yields exactly one action, `NoOp` included.
pub fn route(event: &InboundEvent, privilege: bool) -> (a: Action)
    ensures
        a@ == spec_route(event@, privilege),
{
    match event {
        InboundEvent::Other => Action::NoOp,
        InboundEvent::PaymentCompleted { chat_id, .. } => {
            let user_id = String::from_str("1");
            proof {
                reveal_strlit("1");
                assert(user_id@ =~= fixed_user_id());
            }
            let a = Action::FetchAndSendCredential { target: *chat_id, user_id };
            proof {
                assert(a@ =~= spec_route(event@, privilege));
            }
            a
        },
        InboundEvent::TextMessage { chat_id, text, .. } => {
            let tok = first_token_of(text.as_str());
            proof {
                reveal_strlit("/start");
                reveal_strlit("/buy");
                reveal_strlit("/test_buy");
                reveal_strlit("1");
                assert("/start"@ =~= start_command());
                assert("/buy"@ =~= buy_command());
                assert("/test_buy"@ =~= test_buy_command());
                assert("1"@ =~= fixed_user_id());
            }
            if tok.unicode_len() == 0 {
                Action::NoOp
            } else if tok.as_str().get_char(0) != '/' {
                Action::NoOp
            } else if str_eq(tok.as_str(), "/start") {
                Action::SendGreeting { target: *chat_id }
            } else if str_eq(tok.as_str(), "/buy") {
                Action::SendInvoice { target: *chat_id }
            } else if str_eq(tok.as_str(), "/test_buy") {
                if privilege {
                    let a = Action::FetchAndSendCredential {
                        target: *chat_id,
                        user_id: String::from_str("1"),
                    };
                    proof {
                        assert(a@ =~= spec_route(event@, privilege));
                    }
                    a
                } else {
                    Action::NoOp
                }
            } else {
                Action::NoOp
            }
        },
    }
}

/// Routes one event, deciding privilege from the event's sender username
/// and the configured superuser name.
pub fn handle_event(event: &InboundEvent, superuser: &str) -> (a: Action)
    ensures
        a@ == spec_route(event@, spec_privilege(event_user(event@), superuser@)),
{
    let privilege = match event {
        InboundEvent::TextMessage { sender_username, .. } => privilege_of(
            sender_username,
            superuser,
        ),
        _ => false,
    };
    route(event, privilege)
}

/// A text event whose first token is the start command routes to the
/// greeting action and to nothing else, whatever the privilege.
pub proof fn lemma_start_token_routes_to_greeting(
    chat: int,
    user: Option<Seq<char>>,
    text: Seq<char>,
    privilege: bool,
)
    requires
        first_token(text) == start_command(),
    ensures
        spec_route(EventV::Text { chat, user, text }, privilege) == (ActionV::SendGreeting {
            target: chat,
        }),
{
}

/// A text event whose first token is the buy command routes to the invoice
/// action, regardless of privilege.
pub proof fn lemma_buy_token_routes_to_invoice(
    chat: int,
    user: Option<Seq<char>>,
    text: Seq<char>,
    privilege: bool,
)
    requires
        first_token(text) == buy_command(),
    ensures
        spec_route(EventV::Text { chat, user, text }, privilege) == (ActionV::SendInvoice {
            target: chat,
        }),
{
}

/// Privilege strictly gates the test-purchase command: with privilege a
/// text event whose first token is the test-buy command routes to the
/// credential fetch seeded with the fixed test user id, without privilege
/// it routes to no action at all.
pub proof fn lemma_privilege_gates_test_buy(
    chat: int,
    user: Option<Seq<char>>,
    text: Seq<char>,
    privilege: bool,
)
    requires
        first_token(text) == test_buy_command(),
    ensures
        spec_route(EventV::Text { chat, user, text }, privilege) == (if privilege {
            ActionV::FetchAndSendCredential { target: chat, user_id: fixed_user_id() }
        } else {
            ActionV::NoOp
        }),
{
}

/// Every completed payment routes to exactly one credential fetch-and-send,
/// independent of the payment's payload and of privilege.
pub proof fn lemma_payment_routes_to_fetch(chat: int, details: Seq<char>, privilege: bool)
    ensures
        spec_route(EventV::Payment { chat, details }, privilege)
            == (ActionV::FetchAndSendCredential { target: chat, user_id: fixed_user_id() }),
{
}

/// Routing is stateless: delivering the same completed payment twice yields
/// the same credential fetch-and-send both times — duplicates are not
/// deduplicated.
pub proof fn lemma_duplicate_payment_fetches_twice(
    chat: int,
    details: Seq<char>,
    privilege_first: bool,
    privilege_second: bool,
)
    ensures
        spec_route(EventV::Payment { chat, details }, privilege_first) == spec_route(
            EventV::Payment { chat, details },
            privilege_second,
        ),
        spec_route(EventV::Payment { chat, details }, privilege_first)
            == (ActionV::FetchAndSendCredential { target: chat, user_id: fixed_user_id() }),
{
}

} // verus!
