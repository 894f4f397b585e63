use banana_rust_sdk::msg::message_is_success;
use banana_rust_sdk::msg::message_signals_error;

#[test]
fn success_is_detected_case_insensitively() {
    assert!(message_is_success("success"));
    assert!(message_is_success("SUCCESS"));
    assert!(message_is_success("SuCCeSs"));
}

#[test]
fn near_misses_are_not_success() {
    assert!(!message_is_success("succes"));
    assert!(!message_is_success("successful"));
    assert!(!message_is_success(" success"));
    assert!(!message_is_success(""));
    assert!(!message_is_success("running"));
}

#[test]
fn error_substring_is_detected_anywhere_in_any_case() {
    assert!(message_signals_error("error"));
    assert!(message_signals_error("Error: invalid model key"));
    assert!(message_signals_error("internal ERROR occurred"));
    assert!(message_signals_error("xxErRoRyy"));
}

#[test]
fn messages_without_the_substring_signal_nothing() {
    assert!(!message_signals_error(""));
    assert!(!message_signals_error("erro"));
    assert!(!message_signals_error("err or"));
    assert!(!message_signals_error("queued"));
    assert!(!message_signals_error("running"));
    assert!(!message_signals_error("success"));
}
