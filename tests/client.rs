use stripe::client::{is_header_value, is_request_path};
use stripe::{Client, ClientError, Method, Params, RequestError};

#[test]
fn url_joins_path_onto_base() {
    assert_eq!(Client::url("/charges"), "https://api.stripe.com/v1/charges");
    assert_eq!(Client::url("/customers/cus_1/sources"), "https://api.stripe.com/v1/customers/cus_1/sources");
    assert_eq!(Client::url("/"), "https://api.stripe.com/v1/");
}

fn header_pairs(c: &Client) -> Vec<(String, String)> {
    assert!(c.check_headers());
    c.headers()
}

#[test]
fn headers_carry_credential_and_content_type() {
    let c = Client::new("sk_test_123".to_string());
    assert_eq!(
        header_pairs(&c),
        vec![
            ("Authorization".to_string(), "Bearer sk_test_123".to_string()),
            ("Content-Type".to_string(), "application/x-www-form-urlencoded".to_string()),
        ]
    );
}

#[test]
fn account_header_after_set_and_with() {
    let mut c = Client::new("sk".to_string());
    let derived = c.with(Params { stripe_account: Some("acct_B".to_string()) });
    c.set_stripe_account("acct_A".to_string());
    let h = header_pairs(&c);
    assert_eq!(h.len(), 3);
    assert_eq!(h[2], ("Stripe-Account".to_string(), "acct_A".to_string()));
    let hd = header_pairs(&derived);
    assert_eq!(hd[2], ("Stripe-Account".to_string(), "acct_B".to_string()));
    assert_eq!(hd[0].1, "Bearer sk");
    let plain = c.with(Params::default());
    assert_eq!(header_pairs(&plain).len(), 2);
    // deriving left the first client alone
    assert_eq!(header_pairs(&c)[2].1, "acct_A");
}

#[test]
fn invalid_header_values_are_detected() {
    assert!(is_header_value("acct_123 \t"));
    assert!(!is_header_value("acct\n123"));
    assert!(!is_header_value("acct\u{7f}"));
    let mut c = Client::new("sk".to_string());
    c.set_stripe_account("bad\r\nX-Evil: 1".to_string());
    assert!(!c.check_headers());
    assert!(!Client::new("sk\n".to_string()).check_headers());
}

#[test]
fn request_is_built_from_method_path_and_body() {
    let c = Client::new("sk".to_string());
    let r = c.request(Method::Post, "/charges", Some("amount=1000&currency=usd".to_string()));
    assert_eq!(r.method, Method::Post);
    assert_eq!(r.url, "https://api.stripe.com/v1/charges");
    assert_eq!(r.headers.len(), 2);
    assert_eq!(r.body.as_deref(), Some("amount=1000&currency=usd"));
    let d = c.request(Method::Delete, "/customers/cus_1", None);
    assert_eq!(d.method, Method::Delete);
    assert!(d.body.is_none());
}

#[test]
fn named_calls_build_their_requests() {
    let mut c = Client::new("sk_live".to_string());
    c.set_stripe_account("acct_9".to_string());
    let g = c.get("/charges/ch_1");
    assert_eq!((g.method, g.url.as_str(), g.body.is_none()), (Method::Get, "https://api.stripe.com/v1/charges/ch_1", true));
    assert_eq!(g.headers[2].1, "acct_9");
    let p = c.post("/charges", "amount=1000&currency=usd".to_string());
    assert_eq!((p.method, p.body.as_deref()), (Method::Post, Some("amount=1000&currency=usd")));
    let e = c.post_empty("/invoices/in_1/pay");
    assert_eq!((e.method, e.url.as_str(), e.body.is_none()), (Method::Post, "https://api.stripe.com/v1/invoices/in_1/pay", true));
    let d = c.delete("/customers/cus_1");
    assert_eq!((d.method, d.body.is_none()), (Method::Delete, true));
}

#[test]
fn scenario_success_body_is_returned() {
    let body = br#"{"id":"ch_123","object":"charge","amount":1000,"currency":"usd"}"#.to_vec();
    let text = Client::read_response(200, body.clone()).unwrap();
    assert_eq!(text.as_bytes(), &body[..]);
    let v: serde_json::Value = serde_json::from_str(&text).unwrap();
    assert_eq!(v["id"], "ch_123");
    assert_eq!(Client::read_response(299, b"{}".to_vec()).unwrap(), "{}");
}

#[test]
fn scenario_declined_card_is_a_request_error() {
    let body = br#"{"error":{"message":"Your card was declined.","code":"card_declined"}}"#.to_vec();
    match Client::read_response(402, body) {
        Err(ClientError::Request(e)) => {
            assert_eq!(e.http_status, 402);
            assert_eq!(e.message.as_deref(), Some("Your card was declined."));
            assert_eq!(e.code.as_deref(), Some("card_declined"));
            assert_eq!(e.error_type, None);
        }
        other => panic!("unexpected {:?}", other),
    }
}

#[test]
fn error_envelope_fields() {
    let e = RequestError::from_envelope(
        400,
        r#"{"error":{"type":"invalid_request_error","param":"amount","message":null,"doc_url":"x"}}"#,
    );
    assert_eq!(e.http_status, 400);
    assert_eq!(e.error_type.as_deref(), Some("invalid_request_error"));
    assert_eq!(e.param.as_deref(), Some("amount"));
    assert_eq!(e.message, None);
}

#[test]
fn unreadable_envelope_falls_back() {
    for (status, body) in [(500u16, "<html>oops</html>"), (404, r#"{"nope":1}"#), (400, r#"{"error":{"message":5}}"#)] {
        match Client::read_response(status, body.as_bytes().to_vec()) {
            Err(ClientError::Request(e)) => {
                assert_eq!(e.http_status, status);
                assert!(e.message.unwrap().starts_with("failed to deserialize error: "));
            }
            other => panic!("unexpected {:?}", other),
        }
    }
    let e = RequestError::fallback(503, "why");
    assert_eq!(e.message.as_deref(), Some("failed to deserialize error: why"));
}

#[test]
fn non_utf8_bodies() {
    assert!(matches!(Client::read_response(200, vec![0xff, 0xfe]), Err(ClientError::Deserialize(_))));
    match Client::read_response(500, vec![0xff]) {
        Err(ClientError::Request(e)) => assert_eq!(e.http_status, 500),
        other => panic!("unexpected {:?}", other),
    }
}

#[test]
fn request_paths() {
    assert!(is_request_path("/charges"));
    assert!(is_request_path("/charges?limit=3&expand[]=customer"));
    assert!(!is_request_path(""));
    assert!(!is_request_path("charges"));
    assert!(!is_request_path("/a b"));
    assert!(!is_request_path("/a#b"));
    assert!(!is_request_path("/caf\u{e9}"));
    assert!(!is_request_path(&format!("/{}", "a".repeat(40000))));
}

#[test]
fn json_that_is_no_envelope_falls_back_without_detail() {
    let e = RequestError::from_envelope(502, r#"{"error":"upstream"}"#);
    assert_eq!(e.http_status, 502);
    assert_eq!(e.message.as_deref(), Some("failed to deserialize error: missing object under `error`"));
    assert_eq!((e.error_type, e.code, e.param), (None, None, None));
    let e = RequestError::from_envelope(400, r#"{"error":{"code":7,"message":"x"}}"#);
    assert!(e.message.unwrap().starts_with("failed to deserialize error: "));
    assert_eq!(e.code, None);
}
