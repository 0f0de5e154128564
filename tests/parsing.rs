use stripe::bytes::{constant_time_eq, parse_i64, to_hex};
use stripe::header::{parse_header, split_bytes, trim_bytes};
use stripe::{Event, EventObject, EventType, WebhookError};

#[test]
fn constant_time_eq_compares_every_byte() {
    let a = [7u8; 32];
    let mut last = a;
    last[31] = 8;
    let mut first = a;
    first[0] = 8;
    assert!(constant_time_eq(&a, &a));
    assert!(!constant_time_eq(&a, &last));
    assert!(!constant_time_eq(&a, &first));
    assert!(!constant_time_eq(&a, &a[..31]));
    assert!(constant_time_eq(&[], &[]));
}

#[test]
fn hex_is_lowercase_two_digits_per_byte() {
    assert_eq!(to_hex(&[0x00, 0x0f, 0xa5, 0xff]), b"000fa5ff".to_vec());
    assert_eq!(to_hex(&[]), Vec::<u8>::new());
}

#[test]
fn decimal_parse_matches_i64() {
    assert_eq!(parse_i64(b"1614556800"), Some(1614556800));
    assert_eq!(parse_i64(b"-42"), Some(-42));
    assert_eq!(parse_i64(b"+7"), Some(7));
    assert_eq!(parse_i64(b"9223372036854775807"), Some(i64::MAX));
    assert_eq!(parse_i64(b"-9223372036854775808"), Some(i64::MIN));
    assert_eq!(parse_i64(b"9223372036854775808"), None);
    assert_eq!(parse_i64(b""), None);
    assert_eq!(parse_i64(b"-"), None);
    assert_eq!(parse_i64(b"12a"), None);
    assert_eq!(parse_i64(b" 1"), None);
}

#[test]
fn split_keeps_empty_pieces() {
    let parts = split_bytes(b"a,,b,", b',');
    assert_eq!(parts, vec![b"a".to_vec(), vec![], b"b".to_vec(), vec![]]);
    assert_eq!(split_bytes(b"", b','), vec![Vec::<u8>::new()]);
}

#[test]
fn trim_removes_ascii_space() {
    assert_eq!(trim_bytes(b" \t t=1 \r\n"), b"t=1".to_vec());
    assert_eq!(trim_bytes(b"   "), Vec::<u8>::new());
}

#[test]
fn header_first_timestamp_and_all_signatures() {
    let h = parse_header(b"t=12, v1=aa, t=13, v1=bb=c").unwrap();
    assert_eq!(h.timestamp, 12);
    assert_eq!(h.timestamp_text, b"12".to_vec());
    assert_eq!(h.signatures, vec![b"aa".to_vec(), b"bb=c".to_vec()]);
}

#[test]
fn event_names_round_trip() {
    for t in [
        EventType::AccountUpdated,
        EventType::ChargeSucceeded,
        EventType::Sourcechargeable,
        EventType::SigmaScheduledQueryRunCreated,
        EventType::TransferUpdated,
    ] {
        assert_eq!(EventType::from_name(t.name()), Some(t));
    }
    assert_eq!(EventType::ChargeSucceeded.name(), "charge.succeeded");
    assert_eq!(EventType::Sourcechargeable.name(), "source.chargeable");
    assert_eq!(EventType::from_name("charge.nope"), None);
}

#[test]
fn object_tags() {
    let v = serde_json::Value::Null;
    assert!(matches!(EventObject::from_tag("fee_refund", v.clone()), Some(EventObject::ApplicationFeeRefund(_))));
    assert!(matches!(EventObject::from_tag("invoice_item", v.clone()), Some(EventObject::InvoiceItem(_))));
    assert!(EventObject::from_tag("application_fee_refund", v.clone()).is_none());
    assert!(EventObject::from_tag("Charge", v).is_none());
}

#[test]
fn event_from_parts() {
    let fields: serde_json::Value = serde_json::from_str(r#"{"id":"re_1","object":"review"}"#).unwrap();
    let e = Event::from_parts("review.opened", "review", fields.clone()).unwrap();
    assert_eq!(e.event_type, EventType::ReviewOpened);
    assert!(matches!(e.data.object, EventObject::Review(ref v) if *v == fields));
    assert!(matches!(Event::from_parts("review.opened", "reviews", fields.clone()), Err(WebhookError::BadParse(_))));
    assert!(matches!(Event::from_parts("review.reopened", "review", fields), Err(WebhookError::BadParse(_))));
}

#[test]
fn event_json_round_trip() {
    let text = r#"{"type":"payout.paid","data":{"object":{"id":"po_1","object":"payout","amount":50}}}"#;
    let v: serde_json::Value = serde_json::from_str(text).unwrap();
    let e = Event::from_payload(text).unwrap();
    assert_eq!(e.event_type, EventType::PayoutPaid);
    match e.data.object {
        EventObject::Payout(fields) => {
            let again: serde_json::Value = serde_json::from_str(&fields.to_string()).unwrap();
            assert_eq!(again, v["data"]["object"]);
        }
        other => panic!("unexpected object {:?}", other),
    }
}

#[test]
fn payloads_that_are_no_event() {
    for text in [
        "not json",
        r#"{"data":{"object":{"object":"charge"}}}"#,
        r#"{"type":5,"data":{"object":{"object":"charge"}}}"#,
        r#"{"type":"charge.failed","data":{"object":"charge"}}"#,
        r#"{"type":"charge.failed","data":{"object":{"id":"ch_1"}}}"#,
        r#"{"type":"charge.failed","data":{"object":{"object":"widget"}}}"#,
    ] {
        assert!(matches!(Event::from_payload(text), Err(WebhookError::BadParse(_))), "{}", text);
    }
}
