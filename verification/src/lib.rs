//! Verified core of a chat-bot that routes inbound messaging events to a
//! fixed set of actions and brokers a paid-access flow: a purchase command
//! leads to an invoice, a completed payment to a credential fetched from a
//! backend service and sent back to the chat.
//!
//! Everything here is pure decision and formatting logic; the surrounding
//! transport (platform client, HTTP, runtime) lives outside the library and
//! hands in plain values.

pub mod broker;
pub mod config;
pub mod event;
pub mod json;
pub mod messages;
pub mod router;
pub mod text;
pub mod utils;
