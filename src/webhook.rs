//! Verification of signed webhook deliveries.
use vstd::prelude::*;
use vstd::string::StringSliceAdditionalSpecFns;
use hmac::{Hmac, Mac};
use sha2::Sha256;
use crate::bytes::{constant_time_eq, hex_lower, lemma_hex_lower_injective, parse_i64_spec, to_hex};
use crate::header::{
    SignatureHeader, header_text, lemma_header_text_parses, parse_header, parse_header_spec, plain_byte,
};

verus! {

/// Largest age, in seconds, of a delivery that is still accepted.
pub const TOLERANCE_SECS: i64 = 300;

/// Ways a delivery can be refused.
#[derive(Debug, Clone, PartialEq, Eq)]
pub enum WebhookError {
    /// The signature header is malformed.
    BadHeader,
    /// No signature in the header matches the payload.
    BadSignature,
    /// The delivery is older than the tolerance window; holds its timestamp.
    BadTimestamp(i64),
    /// The payload is not a known event.
    BadParse(String),
}

/// The HMAC-SHA256 tag of `msg` under `key`.
pub uninterp spec fn hmac_sha256_of(key: Seq<u8>, msg: Seq<u8>) -> Seq<u8>;

/// Relies on `hmac::Hmac<sha2::Sha256>` (`new_from_slice`, `update`,
/// `finalize`): the 32-byte HMAC-SHA256 tag of `msg` under `key`. Keys of
/// any length are accepted (longer ones are hashed first).
#[verifier::external_body]
fn hmac_sha256(key: &[u8], msg: &[u8]) -> (r: Vec<u8>)
    ensures
        r@ == hmac_sha256_of(key@, msg@),
        r@.len() == 32,
{
    let mut mac = <Hmac<Sha256> as Mac>::new_from_slice(key).expect("HMAC takes keys of any length");
    mac.update(msg);
    mac.finalize().into_bytes().to_vec()
}

/// Relies on `chrono::Utc::now().timestamp()`: the current Unix time in
/// seconds. Nothing is promised of its value.
#[verifier::external_body]
pub(crate) fn unix_now() -> (r: i64) {
    chrono::Utc::now().timestamp()
}

/// The message that the sender signs: the timestamp as written, a `.`, then
/// the payload.
pub open spec fn signed_payload(timestamp_text: Seq<u8>, payload: Seq<u8>) -> Seq<u8> {
    timestamp_text + seq![46u8] + payload
}

/// Outcome of checking a parsed header against the tag computed for it.
pub open spec fn check_spec(signatures: Seq<Seq<u8>>, timestamp: i64, digest: Seq<u8>, now: i64) -> Result<i64, WebhookError> {
    if !signatures.contains(hex_lower(digest)) {
        Err(WebhookError::BadSignature)
    } else if now - timestamp > TOLERANCE_SECS {
        Err(WebhookError::BadTimestamp(timestamp))
    } else {
        Ok(timestamp)
    }
}

/// Outcome of verifying a delivery at time `now`: the header must parse,
/// one of its signatures must be the hex HMAC-SHA256 of the signed payload
/// under the secret, and the timestamp may lie at most the tolerance window
/// in the past. On success, the timestamp.
pub open spec fn verify_spec(payload: Seq<u8>, header: Seq<u8>, secret: Seq<u8>, now: i64) -> Result<i64, WebhookError> {
    match parse_header_spec(header) {
        None => Err(WebhookError::BadHeader),
        Some((text, timestamp, signatures)) => check_spec(
            signatures,
            timestamp,
            hmac_sha256_of(secret, signed_payload(text, payload)),
            now,
        ),
    }
}

/// Checks the signatures of a parsed header against `digest`, the tag
/// computed for its signed payload, then the freshness of its timestamp.
/// Every signature is compared in full, in constant time.
pub fn check_signature(header: &SignatureHeader, digest: &[u8], now: i64) -> (r: Result<i64, WebhookError>)
    requires
        digest@.len() <= usize::MAX / 2,
    ensures
        r == check_spec(header.view().2, header.timestamp, digest@, now),
{
    let expected = to_hex(digest);
    let sigs = &header.signatures;
    let mut found = false;
    let mut i: usize = 0;
    while i < sigs.len()
        invariant
            i <= sigs.len(),
            expected@ == hex_lower(digest@),
            found <==> exists|j: int| 0 <= j < i && sigs.deep_view()[j] == expected@,
        decreases sigs.len() - i,
    {
        assert(sigs.deep_view()[i as int] =~= sigs[i as int]@);
        if constant_time_eq(sigs[i].as_slice(), expected.as_slice()) {
            found = true;
        }
        i = i + 1;
    }
    if !found {
        assert(!sigs.deep_view().contains(expected@));
        return Err(WebhookError::BadSignature);
    }
    assert(sigs.deep_view().contains(expected@));
    if (now as i128) - (header.timestamp as i128) > TOLERANCE_SECS as i128 {
        Err(WebhookError::BadTimestamp(header.timestamp))
    } else {
        Ok(header.timestamp)
    }
}

/// `a` followed by `b`.
fn concat_bytes(a: &[u8], b: &[u8]) -> (r: Vec<u8>)
    ensures
        r@ == a@ + b@,
{
    let mut r: Vec<u8> = Vec::new();
    let mut i: usize = 0;
    while i < a.len()
        invariant
            i <= a.len(),
            r@ == a@.subrange(0, i as int),
        decreases a.len() - i,
    {
        r.push(a[i]);
        i = i + 1;
        assert(r@ =~= a@.subrange(0, i as int));
    }
    let mut j: usize = 0;
    while j < b.len()
        invariant
            j <= b.len(),
            r@ == a@ + b@.subrange(0, j as int),
        decreases b.len() - j,
    {
        r.push(b[j]);
        j = j + 1;
        assert(r@ =~= a@ + b@.subrange(0, j as int));
    }
    assert(a@.subrange(0, a.len() as int) =~= a@);
    assert(b@.subrange(0, b.len() as int) =~= b@);
    r
}

/// Verifies a delivery at time `now` without reading its payload as an
/// event. On success, the delivery's timestamp.
pub fn verify_signature(payload: &str, header: &str, secret: &str, now: i64) -> (r: Result<i64, WebhookError>)
    ensures
        r == verify_spec(payload.spec_bytes(), header.spec_bytes(), secret.spec_bytes(), now),
{
    let parsed = match parse_header(header.as_bytes()) {
        Some(h) => h,
        None => {
            return Err(WebhookError::BadHeader);
        },
    };
    let dot: [u8; 1] = [46];
    let head = concat_bytes(parsed.timestamp_text.as_slice(), &dot);
    let message = concat_bytes(head.as_slice(), payload.as_bytes());
    assert(dot@ =~= seq![46u8]);
    assert(message@ == signed_payload(parsed.timestamp_text@, payload.spec_bytes()));
    let digest = hmac_sha256(secret.as_bytes(), message.as_slice());
    check_signature(&parsed, digest.as_slice(), now)
}


/// Whether a header parses, and one of its signatures is the hex tag of its
/// signed payload under `secret`.
pub open spec fn correctly_signed(payload: Seq<u8>, header: Seq<u8>, secret: Seq<u8>) -> bool {
    parse_header_spec(header) matches Some((text, t, signatures)) && signatures.contains(
        hex_lower(hmac_sha256_of(secret, signed_payload(text, payload))),
    )
}

/// The timestamp a well-formed header carries.
pub open spec fn header_timestamp(header: Seq<u8>) -> i64 {
    parse_header_spec(header)->Some_0.1
}

/// A correctly signed delivery whose timestamp lies at most the tolerance
/// window in the past is accepted, with that timestamp.
pub proof fn lemma_valid_signature_accepted(payload: Seq<u8>, header: Seq<u8>, secret: Seq<u8>, now: i64)
    requires
        correctly_signed(payload, header, secret),
        now - header_timestamp(header) <= TOLERANCE_SECS,
    ensures
        verify_spec(payload, header, secret, now) == Ok::<i64, WebhookError>(header_timestamp(header)),
{
}

/// The header the service sends with a delivery whose timestamp is written
/// `timestamp_text`: that timestamp, and the hex tag of the signed payload
/// under the secret.
pub open spec fn service_header(payload: Seq<u8>, secret: Seq<u8>, timestamp_text: Seq<u8>) -> Seq<u8> {
    header_text(timestamp_text, hex_lower(hmac_sha256_of(secret, signed_payload(timestamp_text, payload))))
}

/// A service header parses to its timestamp and its one signature.
proof fn lemma_service_header_parses(payload: Seq<u8>, secret: Seq<u8>, timestamp_text: Seq<u8>)
    requires
        parse_i64_spec(timestamp_text) is Some,
    ensures
        parse_header_spec(service_header(payload, secret, timestamp_text)) == Some(
            (
                timestamp_text,
                parse_i64_spec(timestamp_text)->Some_0,
                seq![hex_lower(hmac_sha256_of(secret, signed_payload(timestamp_text, payload)))],
            ),
        ),
        correctly_signed(payload, service_header(payload, secret, timestamp_text), secret),
        header_timestamp(service_header(payload, secret, timestamp_text)) == parse_i64_spec(
            timestamp_text,
        )->Some_0,
{
    let sig = hex_lower(hmac_sha256_of(secret, signed_payload(timestamp_text, payload)));
    assert forall|i: int| 0 <= i < sig.len() implies plain_byte(#[trigger] sig[i]) by {}
    lemma_header_text_parses(timestamp_text, sig);
    assert(seq![sig][0] == sig);
}

/// A delivery signed as the service signs it, whose timestamp lies at most
/// the tolerance window in the past, is accepted, with its timestamp.
pub proof fn lemma_signed_delivery_accepted(payload: Seq<u8>, secret: Seq<u8>, timestamp_text: Seq<u8>, now: i64)
    requires
        parse_i64_spec(timestamp_text) is Some,
        now - parse_i64_spec(timestamp_text)->Some_0 <= TOLERANCE_SECS,
    ensures
        verify_spec(payload, service_header(payload, secret, timestamp_text), secret, now)
            == Ok::<i64, WebhookError>(parse_i64_spec(timestamp_text)->Some_0),
{
    lemma_service_header_parses(payload, secret, timestamp_text);
}

/// A payload other than the one a service header was made for is refused as
/// a bad signature, whatever the time, whenever the tags of the two signed
/// payloads differ (which the hash makes all but certain).
pub proof fn lemma_altered_payload_refused(
    payload: Seq<u8>,
    altered: Seq<u8>,
    secret: Seq<u8>,
    timestamp_text: Seq<u8>,
    now: i64,
)
    requires
        parse_i64_spec(timestamp_text) is Some,
        hmac_sha256_of(secret, signed_payload(timestamp_text, altered)) != hmac_sha256_of(
            secret,
            signed_payload(timestamp_text, payload),
        ),
    ensures
        verify_spec(altered, service_header(payload, secret, timestamp_text), secret, now)
            == Err::<i64, WebhookError>(WebhookError::BadSignature),
{
    let sig = hex_lower(hmac_sha256_of(secret, signed_payload(timestamp_text, payload)));
    let other = hex_lower(hmac_sha256_of(secret, signed_payload(timestamp_text, altered)));
    lemma_service_header_parses(payload, secret, timestamp_text);
    if other == sig {
        lemma_hex_lower_injective(
            hmac_sha256_of(secret, signed_payload(timestamp_text, altered)),
            hmac_sha256_of(secret, signed_payload(timestamp_text, payload)),
        );
    }
    assert(!seq![sig].contains(other)) by {
        if seq![sig].contains(other) {
            let j = choose|j: int| 0 <= j < seq![sig].len() && seq![sig][j] == other;
            assert(j == 0);
        }
    }
}

/// A delivery signed as the service signs it is accepted when it is exactly
/// the tolerance window old, and refused as stale one second later.
pub proof fn lemma_signed_delivery_boundary(payload: Seq<u8>, secret: Seq<u8>, timestamp_text: Seq<u8>)
    requires
        parse_i64_spec(timestamp_text) is Some,
        parse_i64_spec(timestamp_text)->Some_0 <= i64::MAX - 301,
    ensures
        verify_spec(
            payload,
            service_header(payload, secret, timestamp_text),
            secret,
            (parse_i64_spec(timestamp_text)->Some_0 + 300) as i64,
        ) == Ok::<i64, WebhookError>(parse_i64_spec(timestamp_text)->Some_0),
        verify_spec(
            payload,
            service_header(payload, secret, timestamp_text),
            secret,
            (parse_i64_spec(timestamp_text)->Some_0 + 301) as i64,
        ) == Err::<i64, WebhookError>(WebhookError::BadTimestamp(parse_i64_spec(timestamp_text)->Some_0)),
{
    lemma_service_header_parses(payload, secret, timestamp_text);
    lemma_tolerance_boundary(payload, service_header(payload, secret, timestamp_text), secret);
}

/// A correctly signed delivery is accepted when it is exactly the tolerance
/// window old, and refused as stale one second later.
pub proof fn lemma_tolerance_boundary(payload: Seq<u8>, header: Seq<u8>, secret: Seq<u8>)
    requires
        correctly_signed(payload, header, secret),
        header_timestamp(header) <= i64::MAX - 301,
    ensures
        verify_spec(payload, header, secret, (header_timestamp(header) + 300) as i64)
            == Ok::<i64, WebhookError>(header_timestamp(header)),
        verify_spec(payload, header, secret, (header_timestamp(header) + 301) as i64)
            == Err::<i64, WebhookError>(WebhookError::BadTimestamp(header_timestamp(header))),
{
}

/// A well-formed header none of whose signatures is the tag of the signed
/// payload is refused as a bad signature, whatever the time.
pub proof fn lemma_unmatched_signature_refused(payload: Seq<u8>, header: Seq<u8>, secret: Seq<u8>, now: i64)
    requires
        parse_header_spec(header) is Some,
        !correctly_signed(payload, header, secret),
    ensures
        verify_spec(payload, header, secret, now) == Err::<i64, WebhookError>(WebhookError::BadSignature),
{
}

} // verus!
