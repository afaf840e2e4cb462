use base64::Engine;
use error_code::ErrorInfo;
use error_code::status::CodeParseError;
use std::collections::hash_map::DefaultHasher;
use std::hash::Hasher;

fn record(client_msg: &str, server_msg: &str) -> ErrorInfo<u16> {
    ErrorInfo::from_parts(
        400u16,
        "01IC".to_string(),
        client_msg.to_string(),
        server_msg.to_string(),
    )
}

#[test]
fn client_msg_prefers_declared_text() {
    let info = record("friendly msg", "Invalid argument: x");
    assert_eq!(info.client_msg(), "friendly msg");
}

#[test]
fn client_msg_falls_back_to_server_msg() {
    let info = record("", "Invalid command: ping");
    assert_eq!(info.client_msg(), "Invalid command: ping");
}

#[test]
fn client_msg_empty_when_both_empty() {
    let info = record("", "");
    assert_eq!(info.client_msg(), "");
}

#[test]
fn compact_rendering() {
    let info = ErrorInfo {
        app_code: 400u16,
        code: "01IC".to_string(),
        hash: "AbC123XyZ_Q".to_string(),
        client_msg: "".to_string(),
        server_msg: "Invalid command: ping".to_string(),
    };
    assert_eq!(info.compact_string(), "[01IC-AbC123XyZ_Q] Invalid command: ping");
}

#[test]
fn verbose_rendering() {
    let info = ErrorInfo {
        app_code: 400u16,
        code: "01IC".to_string(),
        hash: "AbC123XyZ_Q".to_string(),
        client_msg: "".to_string(),
        server_msg: "Invalid command: ping".to_string(),
    };
    assert_eq!(info.verbose_string(), "[01IC-AbC123XyZ_Q], Invalid command: ping");
}

#[test]
fn hash_is_eleven_urlsafe_chars_no_padding() {
    for msg in ["", "Invalid command: ping", "x", "a slightly longer server message"] {
        let info = record("", msg);
        assert_eq!(info.hash.len(), 11);
        assert!(info.hash.chars().all(|c| {
            c.is_ascii_uppercase()
                || c.is_ascii_lowercase()
                || c.is_ascii_digit()
                || c == '-'
                || c == '_'
        }));
        assert!(!info.hash.contains('='));
    }
}

#[test]
fn hash_is_deterministic() {
    let a = record("", "Invalid command: ping");
    let b = record("friendly msg", "Invalid command: ping");
    assert_eq!(a.hash, b.hash);
    let c = record("", "Invalid command: pong");
    assert_ne!(a.hash, c.hash);
}

#[test]
fn hash_matches_hasher_and_base64() {
    let msg = "Invalid command: ping";
    let info = record("", msg);
    let mut hasher = DefaultHasher::new();
    hasher.write(msg.as_bytes());
    let expected = base64::prelude::BASE64_URL_SAFE_NO_PAD.encode(hasher.finish().to_le_bytes());
    assert_eq!(info.hash, expected);
}

#[test]
fn strict_construction_parses_app_code() {
    let info: ErrorInfo<u16> = ErrorInfo::new(
        "400",
        "01IC".to_string(),
        "".to_string(),
        "Invalid command: ping".to_string(),
    );
    assert_eq!(info.app_code, 400u16);
    assert_eq!(info.code, "01IC");
    assert_eq!(info.server_msg, "Invalid command: ping");
}

#[test]
fn fallible_construction_returns_ok_on_good_code() {
    let r: Result<ErrorInfo<u16>, _> = ErrorInfo::try_new(
        "500",
        "01RE".to_string(),
        "".to_string(),
        "boom".to_string(),
    );
    let info = r.expect("a numeric code parses");
    assert_eq!(info.app_code, 500u16);
    assert_eq!(info.code, "01RE");
}

#[test]
fn fallible_construction_reports_unparsable_code() {
    let r: Result<ErrorInfo<u16>, _> = ErrorInfo::try_new(
        "not-a-status",
        "01IC".to_string(),
        "".to_string(),
        "Invalid command: ping".to_string(),
    );
    match r {
        Ok(_) => panic!("an unparsable code must not construct a record"),
        Err(e) => assert_eq!(e, CodeParseError::NotADigit),
    }
}
