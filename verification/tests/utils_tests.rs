//! Helpers, configuration flags, message texts and tokenization.

use keybot::config::{ingestion_mode, IngestionMode};
use keybot::messages::invoice_request;
use keybot::text::{eq_ignore_ascii_case, first_token_of, str_eq};
use keybot::utils::{get_env_feature_turned_on, make_err, missing_env_message};

#[test]
fn make_err_formats_the_failing_step() {
    assert_eq!(make_err("connection refused", "send invoice"), "Failed send invoice: connection refused");
}

#[test]
fn missing_env_message_names_the_key() {
    assert_eq!(missing_env_message("S_USERNAME"), "S_USERNAME must be set");
}

#[test]
fn truthy_flag_values_turn_the_feature_on() {
    for v in ["ok", "OK", "1", "yes", "Yes", "y", "Y", "true", "TRUE", "True"] {
        assert!(get_env_feature_turned_on(&Some(v.to_string())), "{} should be truthy", v);
    }
}

#[test]
fn other_flag_values_leave_the_feature_off() {
    for v in ["", "no", "0", "false", "on", "yess", "tru e"] {
        assert!(!get_env_feature_turned_on(&Some(v.to_string())), "{} should not be truthy", v);
    }
    assert!(!get_env_feature_turned_on(&None));
}

#[test]
fn ingestion_mode_follows_the_webhook_flag() {
    assert!(matches!(ingestion_mode(&Some("true".to_string())), IngestionMode::Webhook));
    assert!(matches!(ingestion_mode(&Some("no".to_string())), IngestionMode::LongPoll));
    assert!(matches!(ingestion_mode(&None), IngestionMode::LongPoll));
}

#[test]
fn first_token_skips_leading_whitespace() {
    assert_eq!(first_token_of("  /start now"), "/start");
    assert_eq!(first_token_of("/buy"), "/buy");
    assert_eq!(first_token_of("\t\nhello world"), "hello");
    assert_eq!(first_token_of(""), "");
    assert_eq!(first_token_of("   "), "");
}

#[test]
fn string_comparisons() {
    assert!(str_eq("/start", "/start"));
    assert!(!str_eq("/start", "/star"));
    assert!(!str_eq("/start", "/starx"));
    assert!(eq_ignore_ascii_case("Root", "rOOt"));
    assert!(eq_ignore_ascii_case("ß", "ß"));
    assert!(!eq_ignore_ascii_case("root", "roots"));
    assert!(!eq_ignore_ascii_case("root", "ro0t"));
}

#[test]
fn invoice_parameters_are_fixed() {
    let inv = invoice_request(5);
    assert_eq!(inv.target, 5);
    assert_eq!(inv.title, "API KEY");
    assert_eq!(inv.description, "WB API KEY for repricing chrome extension");
    assert_eq!(inv.payload, "1");
    assert_eq!(inv.currency, "XTR");
    assert_eq!(inv.price_amount, 123);
    assert_eq!(inv.price_label, "20");
}
