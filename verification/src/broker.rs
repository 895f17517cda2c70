//! The credential broker's verifiable half: building the one POST request
//! that fetches a credential for a user identifier, and classifying what
//! the transport brought back. The network call itself happens outside the
//! library.

use vstd::prelude::*;
use crate::config::Config;
use crate::json::{user_id_body, user_id_body_of};

verus! {

/// A classified credential-fetch failure.
#[derive(Debug, PartialEq, Eq)]
pub enum BrokerError {
    /// The configured API key cannot be carried in an HTTP header.
    HeaderConstruction,
    /// The request could not be sent or no response arrived.
    Network,
    /// A response arrived but its body could not be read.
    BodyRead,
}

/// A value fits into an HTTP header exactly when it is non-empty and every
/// character is printable ASCII, space or horizontal tab.
pub open spec fn is_header_char(c: char) -> bool {
    c == '\t' || (32 <= c as u32 && c as u32 <= 126)
}

pub open spec fn valid_header_value(s: Seq<char>) -> bool {
    s.len() > 0 && forall|i: int| 0 <= i < s.len() ==> is_header_char(#[trigger] s[i])
}

/// Decides [`valid_header_value`] for a runtime string.
pub fn check_header_value(s: &str) -> (r: bool)
    ensures
        r == valid_header_value(s@),
{
    let n = s.unicode_len();
    if n == 0 {
        return false;
    }
    let mut i: usize = 0;
    while i < n
        invariant
            n == s@.len(),
            i <= n,
            forall|j: int| 0 <= j < i ==> is_header_char(#[trigger] s@[j]),
        decreases n - i,
    {
        let c = s.get_char(i);
        let u = c as u32;
        if !(c == '\t' || (32 <= u && u <= 126)) {
            return false;
        }
        i = i + 1;
    }
    true
}

/// The POST request the broker hands to the transport: target URL, the two
/// headers, and the JSON body.
pub struct BrokerRequest {
    pub url: String,
    pub authorization: String,
    pub content_type: String,
    pub body: String,
}

/// Builds the credential request for `user_id`, or classifies the failure:
/// a key that cannot be carried in a header never reaches the transport.
pub fn broker_request(config: &Config, user_id: &str) -> (r: Result<BrokerRequest, BrokerError>)
    ensures
        valid_header_value(config.super_api_key@) ==> (r matches Ok(req) && req.url@
            == config.api_url@ && req.authorization@ == config.super_api_key@
            && req.content_type@ == "application/json"@ && req.body@ == user_id_body(user_id@)),
        !valid_header_value(config.super_api_key@) ==> (r matches Err(e) && e
            == BrokerError::HeaderConstruction),
{
    if !check_header_value(config.super_api_key.as_str()) {
        return Err(BrokerError::HeaderConstruction);
    }
    let req = BrokerRequest {
        url: config.api_url.clone(),
        authorization: config.super_api_key.clone(),
        content_type: String::from_str("application/json"),
        body: user_id_body_of(user_id),
    };
    Ok(req)
}

/// What the transport brought back for one credential request.
pub enum FetchOutcome {
    /// A response arrived and its body was read in full.
    Response { body: String },
    /// The request could not be sent or no response arrived.
    SendFailed,
    /// A response arrived but reading its body failed.
    BodyReadFailed,
}

/// Classifies a transport outcome: the response body is returned verbatim
/// as the credential — never parsed, validated or structured — and each
/// failure maps to its [`BrokerError`].
pub fn classify_outcome(outcome: FetchOutcome) -> (r: Result<String, BrokerError>)
    ensures
        match outcome {
            FetchOutcome::Response { body } => r matches Ok(c) && c@ == body@,
            FetchOutcome::SendFailed => r matches Err(e) && e == BrokerError::Network,
            FetchOutcome::BodyReadFailed => r matches Err(e) && e == BrokerError::BodyRead,
        },
{
    match outcome {
        FetchOutcome::Response { body } => Ok(body),
        FetchOutcome::SendFailed => Err(BrokerError::Network),
        FetchOutcome::BodyReadFailed => Err(BrokerError::BodyRead),
    }
}

} // verus!
