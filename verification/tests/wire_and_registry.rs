//! Decoding of wire texts, registry resolution, and envelope building.

use taskdist::publish::{build_envelope, pick_task_kind, str_eq, Envelope};
use taskdist::registry::{default_registry, HandlerKind, HandlerRegistry};
use taskdist::wire::{decode_kind, Decoded};

#[test]
fn decode_extracts_the_kind() {
    let d = decode_kind(r#"{"type":"email","payload":{"to":"a@b.com"}}"#);
    assert_eq!(d, Decoded::Kind("email".to_string()));
}

#[test]
fn decode_rejects_non_json() {
    assert_eq!(decode_kind("not-json"), Decoded::NotJson);
    assert_eq!(decode_kind(""), Decoded::NotJson);
    assert_eq!(decode_kind(r#"{"type":"email""#), Decoded::NotJson);
}

#[test]
fn decode_requires_a_string_kind() {
    assert_eq!(decode_kind(r#"{"payload":{}}"#), Decoded::NoKind);
    assert_eq!(decode_kind(r#"{"type":7,"payload":{}}"#), Decoded::NoKind);
    assert_eq!(decode_kind(r#"{"type":null}"#), Decoded::NoKind);
    assert_eq!(decode_kind(r#"[1,2,3]"#), Decoded::NoKind);
}

#[test]
fn decode_ignores_unknown_fields() {
    // Forward compatibility: additional fields do not disturb the kind.
    let d = decode_kind(r#"{"version":9,"type":"sms","extra":[true],"payload":{}}"#);
    assert_eq!(d, Decoded::Kind("sms".to_string()));
}

#[test]
fn decode_keeps_unregistered_kinds() {
    let d = decode_kind(r#"{"type":"carrier-pigeon","payload":{}}"#);
    assert_eq!(d, Decoded::Kind("carrier-pigeon".to_string()));
}

#[test]
fn default_registry_resolves_the_three_kinds() {
    let r = default_registry();
    assert_eq!(r.resolve("email"), Some(HandlerKind::Email));
    assert_eq!(r.resolve("sms"), Some(HandlerKind::Sms));
    assert_eq!(r.resolve("push"), Some(HandlerKind::Push));
    assert_eq!(r.resolve("carrier-pigeon"), None);
    assert_eq!(r.len(), 3);
}

#[test]
fn empty_registry_resolves_nothing() {
    let r = HandlerRegistry::new();
    assert_eq!(r.resolve("email"), None);
    assert_eq!(r.len(), 0);
}

#[test]
fn resolution_is_first_match() {
    let mut r = HandlerRegistry::new();
    r.register("alert".to_string(), HandlerKind::Email);
    r.register("alert".to_string(), HandlerKind::Sms);
    assert_eq!(r.resolve("alert"), Some(HandlerKind::Email));
}

fn fields_of(e: &Envelope) -> Vec<(&str, &str)> {
    e.fields.iter().map(|f| (f.0.as_str(), f.1.as_str())).collect()
}

#[test]
fn email_envelope_has_the_expected_payload() {
    let e = build_envelope("email");
    assert_eq!(e.kind, "email");
    assert_eq!(
        fields_of(&e),
        vec![("to", "user@example.com"), ("subject", "Hello"), ("body", "Hi there!")]
    );
}

#[test]
fn sms_envelope_has_the_expected_payload() {
    let e = build_envelope("sms");
    assert_eq!(e.kind, "sms");
    assert_eq!(fields_of(&e), vec![("to", "+1234567890"), ("message", "Your code is 1234")]);
}

#[test]
fn push_envelope_has_the_expected_payload() {
    let e = build_envelope("push");
    assert_eq!(e.kind, "push");
    assert_eq!(
        fields_of(&e),
        vec![("device_id", "abc123"), ("message", "New update available!")]
    );
}

#[test]
fn other_kinds_get_an_empty_payload() {
    let e = build_envelope("carrier-pigeon");
    assert_eq!(e.kind, "carrier-pigeon");
    assert!(e.fields.is_empty());
}

#[test]
fn picked_kinds_are_always_known() {
    let r = default_registry();
    for _ in 0..64 {
        let kind = pick_task_kind();
        assert!(r.resolve(kind).is_some(), "picked an unregistered kind: {}", kind);
    }
}

#[test]
fn str_eq_compares_by_contents() {
    assert!(str_eq("email", "email"));
    assert!(!str_eq("email", "sms"));
    assert!(!str_eq("", "sms"));
    assert!(str_eq("", ""));
}
