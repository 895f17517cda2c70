//! The immutable runtime configuration, assembled once at startup from the
//! environment and passed explicitly to every component that needs it, and
//! the choice between the two ingestion modes.

use vstd::prelude::*;
use crate::text::opt_str_view;
use crate::utils::{get_env_feature_turned_on, spec_feature_on};

verus! {

/// The required runtime parameters. The caller that assembles this struct
/// fails fast when any value is absent; the library takes them as given.
pub struct Config {
    /// The platform bot token.
    pub token: String,
    /// The bearer value sent to the backend credential endpoint.
    pub super_api_key: String,
    /// The URL of the backend credential endpoint.
    pub api_url: String,
    /// The superuser name that gates the test-purchase command.
    pub superuser: String,
}

/// How inbound events reach the router: pushed by a webhook server or
/// pulled by a long-poll loop.
pub enum IngestionMode {
    Webhook,
    LongPoll,
}

/// Chooses the ingestion mode from the webhook toggle flag: webhook exactly
/// when the flag is present and truthy, long-poll otherwise.
pub fn ingestion_mode(webhook_flag: &Option<String>) -> (m: IngestionMode)
    ensures
        (m is Webhook) == spec_feature_on(opt_str_view(*webhook_flag)),
        (m is LongPoll) == !spec_feature_on(opt_str_view(*webhook_flag)),
{
    if get_env_feature_turned_on(webhook_flag) {
        IngestionMode::Webhook
    } else {
        IngestionMode::LongPoll
    }
}

} // verus!
