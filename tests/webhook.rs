use hmac::{Hmac, Mac};
use sha2::Sha256;
use stripe::webhook::{check_signature, verify_signature, TOLERANCE_SECS};
use stripe::header::parse_header;
use stripe::{EventObject, EventType, Webhook, WebhookError};

const SECRET: &str = "whsec_test_secret";
const TS: i64 = 1614556800;

fn payload() -> String {
    r#"{"id":"evt_1","type":"charge.succeeded","data":{"object":{"id":"ch_123","object":"charge","amount":1000}}}"#
        .to_string()
}

fn sign(ts: &str, payload: &str, secret: &str) -> String {
    let mut mac = Hmac::<Sha256>::new_from_slice(secret.as_bytes()).unwrap();
    mac.update(format!("{}.{}", ts, payload).as_bytes());
    let tag = mac.finalize().into_bytes();
    tag.iter().map(|b| format!("{:02x}", b)).collect()
}

fn header_for(ts: i64, payload: &str) -> String {
    format!("t={},v1={}", ts, sign(&ts.to_string(), payload, SECRET))
}

#[test]
fn scenario_fresh_delivery_is_accepted() {
    let p = payload();
    let event = Webhook::construct_event_at(p.clone(), header_for(TS, &p), SECRET.to_string(), TS + 10)
        .expect("a fresh, correctly signed delivery is accepted");
    assert_eq!(event.event_type, EventType::ChargeSucceeded);
    match event.data.object {
        EventObject::Charge(v) => assert_eq!(v["id"], "ch_123"),
        other => panic!("unexpected object {:?}", other),
    }
}

#[test]
fn scenario_old_delivery_is_stale() {
    let p = payload();
    let r = Webhook::construct_event_at(p.clone(), header_for(TS, &p), SECRET.to_string(), TS + 400);
    assert!(matches!(r, Err(WebhookError::BadTimestamp(t)) if t == TS));
}

#[test]
fn tolerance_boundary() {
    let p = payload();
    let h = header_for(TS, &p);
    assert_eq!(TOLERANCE_SECS, 300);
    assert_eq!(verify_signature(&p, &h, SECRET, TS + 300), Ok(TS));
    assert_eq!(verify_signature(&p, &h, SECRET, TS + 301), Err(WebhookError::BadTimestamp(TS)));
    // A timestamp in the future is within the window.
    assert_eq!(verify_signature(&p, &h, SECRET, TS - 1000), Ok(TS));
}

#[test]
fn altered_payload_byte_is_refused() {
    let p = payload();
    let h = header_for(TS, &p);
    let mut bytes = p.clone().into_bytes();
    for i in [0usize, 10, bytes.len() - 1] {
        let saved = bytes[i];
        bytes[i] = if saved == b'x' { b'y' } else { b'x' };
        let altered = String::from_utf8(bytes.clone()).unwrap();
        assert_eq!(verify_signature(&altered, &h, SECRET, TS + 10), Err(WebhookError::BadSignature));
        bytes[i] = saved;
    }
}

#[test]
fn wrong_secret_is_refused() {
    let p = payload();
    let h = header_for(TS, &p);
    assert_eq!(verify_signature(&p, &h, "whsec_other", TS), Err(WebhookError::BadSignature));
}

#[test]
fn signature_checked_before_freshness() {
    let p = payload();
    let h = format!("t={},v1={}", TS, "00".repeat(32));
    assert_eq!(verify_signature(&p, &h, SECRET, TS + 10_000), Err(WebhookError::BadSignature));
}

#[test]
fn any_v1_signature_may_match() {
    let p = payload();
    let good = sign(&TS.to_string(), &p, SECRET);
    let h = format!("t={}, v1={}, v0=abc, v1={}", TS, "ab".repeat(32), good);
    assert_eq!(verify_signature(&p, &h, SECRET, TS), Ok(TS));
}

#[test]
fn malformed_headers() {
    let p = payload();
    let sig = sign(&TS.to_string(), &p, SECRET);
    for h in [
        String::new(),
        format!("t={}", TS),
        format!("v1={}", sig),
        format!("t={},v1={},junk", TS, sig),
        format!("t=abc,v1={}", sig),
        format!("t=,v1={}", sig),
        format!("t=99999999999999999999,v1={}", sig),
    ] {
        assert_eq!(verify_signature(&p, &h, SECRET, TS), Err(WebhookError::BadHeader), "{}", h);
        let r = Webhook::construct_event_at(p.clone(), h.clone(), SECRET.to_string(), TS);
        assert!(matches!(r, Err(WebhookError::BadHeader)));
    }
}

#[test]
fn unknown_object_tag_is_a_parse_error() {
    let p = r#"{"type":"charge.succeeded","data":{"object":{"id":"x_1","object":"spaceship"}}}"#.to_string();
    let r = Webhook::construct_event_at(p.clone(), header_for(TS, &p), SECRET.to_string(), TS);
    assert!(matches!(r, Err(WebhookError::BadParse(_))));
}

#[test]
fn unknown_event_type_is_a_parse_error() {
    let p = r#"{"type":"charge.exploded","data":{"object":{"id":"ch_1","object":"charge"}}}"#.to_string();
    let r = Webhook::construct_event_at(p.clone(), header_for(TS, &p), SECRET.to_string(), TS);
    assert!(matches!(r, Err(WebhookError::BadParse(_))));
}

#[test]
fn payload_not_json_is_a_parse_error() {
    let p = "not json".to_string();
    let r = Webhook::construct_event_at(p.clone(), header_for(TS, &p), SECRET.to_string(), TS);
    assert!(matches!(r, Err(WebhookError::BadParse(_))));
}

#[test]
fn verification_failure_hides_parse_failure() {
    let p = "not json".to_string();
    let h = format!("t={},v1={}", TS, "00".repeat(32));
    let r = Webhook::construct_event_at(p, h, SECRET.to_string(), TS);
    assert!(matches!(r, Err(WebhookError::BadSignature)));
}

#[test]
fn construct_event_against_clock_refuses_old_delivery() {
    let p = payload();
    let r = Webhook::construct_event(p.clone(), header_for(TS, &p), SECRET.to_string());
    assert!(matches!(r, Err(WebhookError::BadTimestamp(t)) if t == TS));
}

#[test]
fn check_signature_takes_the_digest() {
    let h = parse_header(format!("t={},v1={}", TS, "0f".repeat(32)).as_bytes()).unwrap();
    assert_eq!(check_signature(&h, &[0x0f; 32], TS), Ok(TS));
    assert_eq!(check_signature(&h, &[0x0e; 32], TS), Err(WebhookError::BadSignature));
    assert_eq!(check_signature(&h, &[0x0f; 32], TS + 301), Err(WebhookError::BadTimestamp(TS)));
}
