//! Small helpers shared by the rest of the crate: error-message formatting
//! and the truthy-flag check used for the webhook feature toggle.

use vstd::prelude::*;
use crate::text::{ci_eq, eq_ignore_ascii_case, opt_str_view};

verus! {

/// The flag values accepted as "on", compared case-insensitively.
pub open spec fn truthy(v: Seq<char>) -> bool {
    ||| ci_eq(v, "ok"@)
    ||| ci_eq(v, "1"@)
    ||| ci_eq(v, "yes"@)
    ||| ci_eq(v, "y"@)
    ||| ci_eq(v, "true"@)
}

/// A feature is on exactly when its flag is present and truthy.
pub open spec fn spec_feature_on(v: Option<Seq<char>>) -> bool {
    match v {
        Some(s) => truthy(s),
        None => false,
    }
}

/// Decides whether a feature flag read from the environment turns the
/// feature on.
pub fn get_env_feature_turned_on(value: &Option<String>) -> (on: bool)
    ensures
        on == spec_feature_on(opt_str_view(*value)),
{
    match value {
        Some(s) => eq_ignore_ascii_case(s.as_str(), "ok") || eq_ignore_ascii_case(
            s.as_str(),
            "1",
        ) || eq_ignore_ascii_case(s.as_str(), "yes") || eq_ignore_ascii_case(s.as_str(), "y")
            || eq_ignore_ascii_case(s.as_str(), "true"),
        None => false,
    }
}

/// Builds the error reported when a required environment value is absent:
/// `<key> must be set`. Reading the environment itself happens outside the
/// library.
pub fn missing_env_message(key: &str) -> (r: String)
    ensures
        r@ == key@ + " must be set"@,
{
    let mut s = key.to_owned();
    s.append(" must be set");
    s
}

/// Builds the failure message logged when a named step fails:
/// `Failed <process>: <err>`.
pub fn make_err(err: &str, process: &str) -> (r: String)
    ensures
        r@ == "Failed "@ + process@ + ": "@ + err@,
{
    let mut s = String::from_str("Failed ");
    s.append(process);
    s.append(": ");
    s.append(err);
    s
}

} // verus!
