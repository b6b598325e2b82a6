use base64::{engine::general_purpose, Engine as _};
use oxicord::client_identity::{ClientIdentity, DEFAULT_BUILD_NUMBER};

#[test]
fn test_client_identity_defaults() {
    let identity = ClientIdentity::new();
    let props = identity.get_props();

    assert_eq!(props.os, "Linux");
    assert_eq!(props.browser, "Chrome");
    assert_eq!(props.release_channel, "stable");
    assert_eq!(props.client_build_number, DEFAULT_BUILD_NUMBER);
}

#[test]
fn test_update_build_number() {
    let mut identity = ClientIdentity::new();
    identity.update_build_number(123456);
    let props = identity.get_props();
    assert_eq!(props.client_build_number, 123456);

    let header = identity.get_header_value();
    let decoded_bytes = general_purpose::STANDARD
        .decode(&header)
        .expect("valid base64");
    let decoded_str = String::from_utf8(decoded_bytes).expect("valid utf8");
    assert!(decoded_str.contains(r#""client_build_number":123456"#));
}

#[test]
fn test_header_value_encoding() {
    let mut identity = ClientIdentity::new();
    identity.update_build_number(123456);

    let header = identity.get_header_value();
    assert!(!header.is_empty());

    let decoded_bytes = general_purpose::STANDARD
        .decode(&header)
        .expect("Should be valid base64");
    let decoded_str = String::from_utf8(decoded_bytes).expect("Should be valid utf8");

    assert!(decoded_str.contains(r#""client_build_number":123456"#));
    assert!(decoded_str.contains(r#""os":"Linux""#));
    assert!(decoded_str.contains(r#""browser":"Chrome""#));
}

#[test]
fn test_props_json_is_canonical() {
    let identity = ClientIdentity::new();
    let json = identity.get_props().to_json();
    assert!(json.starts_with(r#"{"os":"Linux","browser":"Chrome","device":"","#));
    assert!(json.ends_with(r#""client_event_source":null}"#));
    let parsed: serde_json::Value = serde_json::from_str(&json).expect("canonical JSON parses");
    assert_eq!(parsed["system_locale"], "en-US");
}
