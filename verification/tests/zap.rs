use magic_carpet::event::{PublicKey, SecretKey};
use magic_carpet::nostr_lib::error::NostrLibError;
use magic_carpet::nostr_lib::zap::{
    build_zap_request, lud16_to_lnurl_callback, prepare_zap, valid_relay_urls, zap_relays,
};

#[test]
fn lud16_to_lnurl_valid() {
    let url = lud16_to_lnurl_callback("user@example.com").unwrap();
    assert_eq!(url, "https://example.com/.well-known/lnurlp/user");
}

#[test]
fn lud16_to_lnurl_invalid_no_at() {
    assert!(lud16_to_lnurl_callback("no-at-sign").is_err());
}

#[test]
fn lud16_to_lnurl_empty_user() {
    assert!(lud16_to_lnurl_callback("@example.com").is_err());
}

#[test]
fn lud16_to_lnurl_empty_domain() {
    assert!(lud16_to_lnurl_callback("user@").is_err());
}

#[test]
fn lud16_to_lnurl_multiple_at() {
    assert!(lud16_to_lnurl_callback("user@a@b").is_err());
}

#[test]
fn lud16_error_names_the_address() {
    match lud16_to_lnurl_callback("nope") {
        Err(NostrLibError::Lnurl { reason }) => assert_eq!(reason, "Invalid lud16 format: nope"),
        other => panic!("unexpected: {other:?}"),
    }
}

fn test_keys() -> nostr::Keys {
    nostr::Keys::generate()
}

fn secret(keys: &nostr::Keys) -> SecretKey {
    SecretKey { bytes: keys.secret_key().to_secret_bytes() }
}

fn test_recipient() -> PublicKey {
    PublicKey { bytes: nostr::Keys::generate().public_key().to_bytes() }
}

fn tags_of(event: &magic_carpet::event::Event) -> Vec<Vec<String>> {
    event.tags.iter().map(|t| t.parts.clone()).collect()
}

#[test]
fn zap_request_valid_minimal() {
    let keys = test_keys();
    let recipient = test_recipient();
    let relays = vec!["wss://relay.example.com".to_string()];

    let event = build_zap_request(&secret(&keys), recipient, None, None, 1000, relays, None).unwrap();

    assert_eq!(event.kind, 9734);
    assert_eq!(event.pubkey.bytes, keys.public_key().to_bytes());
    assert_eq!(event.content, "");
}

#[test]
fn zap_request_id_and_signature_check_out() {
    let keys = test_keys();
    let recipient = test_recipient();
    let relays = vec!["wss://relay.example.com".to_string()];

    let event = build_zap_request(
        &secret(&keys),
        recipient,
        None,
        None,
        21000,
        relays,
        Some("great post".to_string()),
    )
    .unwrap();

    let tags: Vec<nostr::Tag> = tags_of(&event).into_iter().map(|t| nostr::Tag::parse(t).unwrap()).collect();
    let rebuilt = nostr::Event::new(
        nostr::EventId::from_byte_array(event.id),
        nostr::PublicKey::from_byte_array(event.pubkey.bytes),
        nostr::Timestamp::from_secs(event.created_at),
        nostr::Kind::from_u16(event.kind),
        tags,
        event.content.clone(),
        nostr::secp256k1::schnorr::Signature::from_slice(&event.sig).unwrap(),
    );
    assert_eq!(event.kind, 9734);
    assert_eq!(event.content, "great post");
    assert!(rebuilt.verify_id());
    assert!(rebuilt.verify_signature());
}

#[test]
fn zap_request_with_event_id() {
    let keys = test_keys();
    let recipient = test_recipient();
    let relays = vec!["wss://relay.example.com".to_string()];
    let event_id = [0u8; 32];

    let event =
        build_zap_request(&secret(&keys), recipient, Some(event_id), None, 1000, relays, None).unwrap();

    let has_e_tag = event.tags.iter().any(|t| {
        let parts = t.as_slice();
        parts.first().map(String::as_str) == Some("e")
    });
    assert!(has_e_tag, "zap request should contain an 'e' tag");
}

#[test]
fn zap_request_empty_relays_errors() {
    let keys = test_keys();
    let recipient = test_recipient();

    let result = build_zap_request(&secret(&keys), recipient, None, None, 1000, vec![], None);

    assert!(result.is_err());
}

#[test]
fn zap_request_all_invalid_relays_errors() {
    let keys = test_keys();
    let recipient = test_recipient();
    let relays = vec!["not-a-url".to_string(), "also-bad".to_string()];

    let result = build_zap_request(&secret(&keys), recipient, None, None, 1000, relays, None);

    assert!(result.is_err());
}

#[test]
fn zap_request_mixed_relays_keeps_valid() {
    let keys = test_keys();
    let recipient = test_recipient();
    let relays = vec!["not-a-url".to_string(), "wss://good.relay.com".to_string()];

    let result = build_zap_request(&secret(&keys), recipient, None, None, 1000, relays, None);

    assert!(result.is_ok());
}

#[test]
fn zap_request_tags_in_order() {
    let keys = test_keys();
    let recipient = test_recipient();
    let list_key = test_recipient();
    let coordinate = format!("39998:{}:my-list", list_key.to_hex().to_uppercase());
    let relays = vec!["wss://a.example.com".to_string(), "bad".to_string(), "wss://b.example.com/".to_string()];
    let event = build_zap_request(
        &secret(&keys),
        recipient,
        Some([1u8; 32]),
        Some(coordinate),
        21000,
        relays,
        Some("great list".to_string()),
    )
    .unwrap();
    assert_eq!(event.content, "great list");
    assert_eq!(
        tags_of(&event),
        vec![
            vec!["p".to_string(), recipient.to_hex()],
            vec!["relays".to_string(), "wss://a.example.com".to_string(), "wss://b.example.com/".to_string()],
            vec!["e".to_string(), "01".repeat(32)],
            vec!["a".to_string(), format!("39998:{}:my-list", list_key.to_hex())],
            vec!["amount".to_string(), "21000".to_string()],
        ]
    );
    assert_eq!(event.pubkey.to_hex(), keys.public_key().to_hex());
}

#[test]
fn zap_request_empty_relays_reason() {
    let result = build_zap_request(&secret(&test_keys()), test_recipient(), None, None, 1, vec![], None);
    match result {
        Err(NostrLibError::Zap { reason }) => assert_eq!(reason, "no valid relay URLs for zap routing"),
        other => panic!("unexpected: {other:?}"),
    }
}

#[test]
fn zap_request_bad_coordinate_is_protocol_error() {
    let relays = vec!["wss://relay.example.com".to_string()];
    let result = build_zap_request(
        &secret(&test_keys()),
        test_recipient(),
        None,
        Some("bogus".to_string()),
        1,
        relays,
        None,
    );
    match result {
        Err(NostrLibError::Protocol(e)) => assert_eq!(e.code(), "INVALID_COORDINATE"),
        other => panic!("unexpected: {other:?}"),
    }
}

#[test]
fn zap_request_to_self_drops_p_tag() {
    let keys = test_keys();
    let me = PublicKey { bytes: keys.public_key().to_bytes() };
    let relays = vec!["wss://relay.example.com".to_string()];
    let event = build_zap_request(&secret(&keys), me, None, None, 5, relays, None).unwrap();
    assert!(event.tags.iter().all(|t| t.parts[0] != "p"));
    assert_eq!(event.content, "");
}

#[test]
fn valid_relay_urls_filters_and_keeps_order() {
    let urls = vec![
        "wss://one.example".to_string(),
        "http://not-a-relay.example".to_string(),
        "wss://two.example/".to_string(),
        "ws://x://y".to_string(),
    ];
    assert_eq!(valid_relay_urls(&urls), vec!["wss://one.example", "wss://two.example/"]);
}

#[test]
fn zap_relays_falls_back_to_connected() {
    let connected = vec!["wss://c".to_string()];
    assert_eq!(zap_relays(vec![], connected.clone()), connected);
    assert_eq!(zap_relays(vec!["wss://r".to_string()], connected), vec!["wss://r".to_string()]);
}

#[test]
fn prepare_zap_returns_callback_and_request() {
    let keys = test_keys();
    let (event, callback) = prepare_zap(
        &secret(&keys),
        test_recipient(),
        "alice@pay.example",
        vec![],
        vec!["wss://connected.example".to_string()],
        None,
        None,
        2000,
        None,
    )
    .unwrap();
    assert_eq!(callback, "https://pay.example/.well-known/lnurlp/alice");
    assert_eq!(event.kind, 9734);
    assert!(tags_of(&event).contains(&vec!["relays".to_string(), "wss://connected.example".to_string()]));
}

#[test]
fn prepare_zap_rejects_bad_address_first() {
    let result = prepare_zap(&secret(&test_keys()), test_recipient(), "bad", vec![], vec![], None, None, 1, None);
    assert!(matches!(result, Err(NostrLibError::Lnurl { .. })));
}

#[test]
fn zap_request_with_invalid_secret_is_zap_error() {
    let relays = vec!["wss://relay.example.com".to_string()];
    let result = build_zap_request(&SecretKey { bytes: [0u8; 32] }, test_recipient(), None, None, 1, relays, None);
    assert!(matches!(result, Err(NostrLibError::Zap { .. })));
}
