//! Routing behavior: one event in, exactly one action out.

use keybot::event::InboundEvent;
use keybot::messages::{credential_message, greeting_text};
use keybot::router::{handle_event, route, Action};

fn text_event(chat_id: i64, sender_username: Option<&str>, text: &str) -> InboundEvent {
    InboundEvent::TextMessage {
        chat_id,
        sender_username: sender_username.map(|u| u.to_string()),
        text: text.to_string(),
    }
}

#[test]
fn start_routes_to_greeting() {
    let a = route(&text_event(7, None, "/start"), false);
    assert!(matches!(a, Action::SendGreeting { target: 7 }));
    let a = route(&text_event(7, None, "/start"), true);
    assert!(matches!(a, Action::SendGreeting { target: 7 }));
}

#[test]
fn start_with_trailing_words_routes_to_greeting() {
    let a = route(&text_event(9, Some("someone"), "  /start now please"), false);
    assert!(matches!(a, Action::SendGreeting { target: 9 }));
}

#[test]
fn buy_routes_to_invoice_regardless_of_privilege() {
    let a = route(&text_event(5, None, "/buy"), false);
    assert!(matches!(a, Action::SendInvoice { target: 5 }));
    let a = route(&text_event(5, None, "/buy"), true);
    assert!(matches!(a, Action::SendInvoice { target: 5 }));
}

#[test]
fn test_buy_with_privilege_fetches_credential() {
    let a = route(&text_event(5, Some("root"), "/test_buy"), true);
    match a {
        Action::FetchAndSendCredential { target, user_id } => {
            assert_eq!(target, 5);
            assert_eq!(user_id, "1");
        }
        other => panic!("expected credential fetch, got {:?}", action_name(&other)),
    }
}

#[test]
fn test_buy_without_privilege_is_silently_denied() {
    let a = route(&text_event(5, Some("intruder"), "/test_buy"), false);
    assert!(matches!(a, Action::NoOp));
}

#[test]
fn unrecognized_command_is_ignored() {
    let a = route(&text_event(5, None, "/frobnicate"), true);
    assert!(matches!(a, Action::NoOp));
}

#[test]
fn plain_text_is_ignored() {
    let a = route(&text_event(5, None, "hello there"), true);
    assert!(matches!(a, Action::NoOp));
}

#[test]
fn empty_and_blank_text_are_ignored() {
    assert!(matches!(route(&text_event(5, None, ""), true), Action::NoOp));
    assert!(matches!(route(&text_event(5, None, "   "), true), Action::NoOp));
}

#[test]
fn command_not_at_token_start_is_ignored() {
    let a = route(&text_event(5, None, "say /start"), true);
    assert!(matches!(a, Action::NoOp));
}

#[test]
fn other_events_are_ignored() {
    assert!(matches!(route(&InboundEvent::Other, true), Action::NoOp));
}

#[test]
fn payment_fetches_credential_whatever_the_payload() {
    for details in ["", "stars", "{\"total\":1}"] {
        let e = InboundEvent::PaymentCompleted { chat_id: 3, payment_details: details.to_string() };
        match route(&e, false) {
            Action::FetchAndSendCredential { target, user_id } => {
                assert_eq!(target, 3);
                assert_eq!(user_id, "1");
            }
            other => panic!("expected credential fetch, got {:?}", action_name(&other)),
        }
    }
}

#[test]
fn duplicate_payment_fetches_twice() {
    let make = || InboundEvent::PaymentCompleted {
        chat_id: 3,
        payment_details: "receipt".to_string(),
    };
    let first = route(&make(), false);
    let second = route(&make(), false);
    for a in [first, second] {
        match a {
            Action::FetchAndSendCredential { target, user_id } => {
                assert_eq!(target, 3);
                assert_eq!(user_id, "1");
            }
            other => panic!("expected credential fetch, got {:?}", action_name(&other)),
        }
    }
}

#[test]
fn privilege_check_is_case_insensitive() {
    let a = handle_event(&text_event(5, Some("Root"), "/test_buy"), "root");
    assert!(matches!(a, Action::FetchAndSendCredential { .. }));
    let a = handle_event(&text_event(5, Some("root"), "/test_buy"), "ROOT");
    assert!(matches!(a, Action::FetchAndSendCredential { .. }));
    let a = handle_event(&text_event(5, Some("rooted"), "/test_buy"), "root");
    assert!(matches!(a, Action::NoOp));
    let a = handle_event(&text_event(5, None, "/test_buy"), "root");
    assert!(matches!(a, Action::NoOp));
}

#[test]
fn start_scenario_end_to_end() {
    let a = handle_event(&text_event(7, None, "/start"), "root");
    assert!(matches!(a, Action::SendGreeting { target: 7 }));
    assert_eq!(greeting_text(), "hi");
}

#[test]
fn test_buy_scenario_end_to_end() {
    let a = handle_event(&text_event(7, Some("root"), "/test_buy"), "root");
    match a {
        Action::FetchAndSendCredential { target, user_id } => {
            assert_eq!(target, 7);
            assert_eq!(user_id, "1");
        }
        other => panic!("expected credential fetch, got {:?}", action_name(&other)),
    }
    assert_eq!(credential_message("SECRET123"), "Your API KEY:\n\n`SECRET123`");
}

fn action_name(a: &Action) -> &'static str {
    match a {
        Action::SendGreeting { .. } => "SendGreeting",
        Action::SendInvoice { .. } => "SendInvoice",
        Action::FetchAndSendCredential { .. } => "FetchAndSendCredential",
        Action::NoOp => "NoOp",
    }
}
