use crypto::hmac::Hmac;
use crypto::mac::Mac;
use crypto::sha1::Sha1;

use webhook_relay::config::HookConfig;
use webhook_relay::handler::handle_hook;

fn hmac_sha1(secret: &[u8], body: &[u8]) -> Vec<u8> {
    let mut mac = Hmac::new(Sha1::new(), secret);
    mac.input(body);
    mac.result().code().to_vec()
}

fn to_hex(bytes: &[u8]) -> String {
    let digits = b"0123456789abcdef";
    let mut out = String::new();
    for &b in bytes {
        out.push(digits[(b >> 4) as usize] as char);
        out.push(digits[(b & 0x0f) as usize] as char);
    }
    out
}

fn push_cat_config() -> HookConfig {
    HookConfig {
        secret: b"abc".to_vec(),
        commands: vec![(b"push".to_vec(), "cat".to_string())],
    }
}

#[test]
fn missing_headers_no_dispatch() {
    let config = push_cat_config();
    let sig = format!("sha1={}", to_hex(&hmac_sha1(b"abc", b"hello")));

    let (response, dispatch) = handle_hook(&config, None, None, b"hello");
    assert_eq!(response.status, 204);
    assert!(response.body.is_empty());
    assert!(dispatch.is_none());

    let (response, dispatch) = handle_hook(&config, Some(b"push"), None, b"hello");
    assert_eq!(response.status, 204);
    assert!(response.body.is_empty());
    assert!(dispatch.is_none());

    let (response, dispatch) = handle_hook(&config, None, Some(sig.as_bytes()), b"hello");
    assert_eq!(response.status, 204);
    assert!(response.body.is_empty());
    assert!(dispatch.is_none());
}

#[test]
fn valid_signature_unknown_event_no_dispatch() {
    let config = push_cat_config();
    let sig = format!("sha1={}", to_hex(&hmac_sha1(b"abc", b"hello")));
    let (response, dispatch) = handle_hook(
        &config,
        Some(b"release"),
        Some(sig.as_bytes()),
        b"hello",
    );
    assert_eq!(response.status, 204);
    assert!(response.body.is_empty());
    assert!(dispatch.is_none());
}

#[test]
fn valid_delivery_dispatches_command() {
    let config = push_cat_config();
    let sig = format!("sha1={}", to_hex(&hmac_sha1(b"abc", b"hello")));
    let (response, dispatch) = handle_hook(
        &config,
        Some(b"push"),
        Some(sig.as_bytes()),
        b"hello",
    );
    assert_eq!(response.status, 204);
    assert!(response.body.is_empty());
    assert_eq!(dispatch, Some(&"cat".to_string()));
}

#[test]
fn wrong_digest_no_dispatch() {
    let config = push_cat_config();
    let (response, dispatch) = handle_hook(
        &config,
        Some(b"push"),
        Some(b"sha1=deadbeef"),
        b"hello",
    );
    assert_eq!(response.status, 204);
    assert!(response.body.is_empty());
    assert!(dispatch.is_none());
}

#[test]
fn bare_hex_signature_dispatches_like_prefixed() {
    let config = push_cat_config();
    let sig = to_hex(&hmac_sha1(b"abc", b"hello"));
    let (response, dispatch) = handle_hook(
        &config,
        Some(b"push"),
        Some(sig.as_bytes()),
        b"hello",
    );
    assert_eq!(response.status, 204);
    assert!(response.body.is_empty());
    assert_eq!(dispatch, Some(&"cat".to_string()));
}

#[test]
fn odd_length_hex_no_dispatch() {
    let config = push_cat_config();
    let (response, dispatch) = handle_hook(
        &config,
        Some(b"push"),
        Some(b"sha1=abc"),
        b"hello",
    );
    assert_eq!(response.status, 204);
    assert!(response.body.is_empty());
    assert!(dispatch.is_none());
}

#[test]
fn command_for_finds_configured_event() {
    let config = HookConfig {
        secret: b"abc".to_vec(),
        commands: vec![
            (b"push".to_vec(), "cat".to_string()),
            (b"release".to_vec(), "echo done".to_string()),
        ],
    };
    assert_eq!(config.command_for(b"push"), Some(&"cat".to_string()));
    assert_eq!(config.command_for(b"release"), Some(&"echo done".to_string()));
    assert_eq!(config.command_for(b"issues"), None);
    assert_eq!(config.command_for(b""), None);
}
