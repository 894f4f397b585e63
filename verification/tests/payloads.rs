use banana_rust_sdk::endpoint::check_url;
use banana_rust_sdk::endpoint::resolve_base_url;
use banana_rust_sdk::endpoint::submit_url;
use banana_rust_sdk::payload::build_check_payload;
use banana_rust_sdk::payload::build_submit_payload;
use banana_rust_sdk::BananaError;

#[test]
fn submit_payload_carries_the_inputs_and_never_start_only() {
    let inputs = serde_json::Value::String("Paris is the capital of [MASK]".to_string());
    let p = build_submit_payload("API_KEY", "MODEL_KEY", inputs.clone(), Ok(1234)).unwrap();
    assert_eq!(p.created, 1234);
    assert_eq!(p.api_key, "API_KEY");
    assert_eq!(p.model_key, "MODEL_KEY");
    assert_eq!(p.model_inputs, inputs);
    assert!(!p.start_only);
    assert!(!p.id.is_empty());
}

#[test]
fn check_payload_long_polls_the_given_handle() {
    let p = build_check_payload("API_KEY", "abc123", Ok(99)).unwrap();
    assert_eq!(p.created, 99);
    assert!(p.long_poll);
    assert_eq!(p.call_i_d, "abc123");
    assert_eq!(p.api_key, "API_KEY");
}

#[test]
fn payload_ids_are_fresh_per_request() {
    let inputs = serde_json::Value::Null;
    let a = build_submit_payload("k", "m", inputs.clone(), Ok(1)).unwrap();
    let b = build_submit_payload("k", "m", inputs, Ok(1)).unwrap();
    assert_ne!(a.id, b.id);
}

#[test]
fn clock_failure_becomes_time_error() {
    let r = build_submit_payload("k", "m", serde_json::Value::Null, Err("no clock".to_string()));
    assert!(matches!(r, Err(BananaError::TimeError(ref e)) if e == "no clock"));

    let r = build_check_payload("k", "abc123", Err("no clock".to_string()));
    assert!(matches!(r, Err(BananaError::TimeError(ref e)) if e == "no clock"));
}

#[test]
fn base_url_resolution() {
    assert_eq!(resolve_base_url(None), "https://api.banana.dev/");
    assert_eq!(
        resolve_base_url(Some("local".to_string())),
        "http://localhost/"
    );
    assert_eq!(
        resolve_base_url(Some("https://example.test/".to_string())),
        "https://example.test/"
    );
}

#[test]
fn routes_are_appended_to_the_base() {
    assert_eq!(
        submit_url("https://api.banana.dev/"),
        "https://api.banana.dev/start/v4/"
    );
    assert_eq!(
        check_url("https://api.banana.dev/"),
        "https://api.banana.dev/check/v4/"
    );
}
