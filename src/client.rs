//! The transport client: turns calls into wire requests, and wire responses
//! into a response body or a typed error.
use vstd::prelude::*;
use vstd::string::{StringExecFns, StringSliceAdditionalSpecFns};
use vstd::utf8::{decode_utf8, encode_utf8, valid_utf8};
use crate::json::{json_error_text, json_object_at, json_text_at, json_valid, object_at, parse_json, text_at};

verus! {

broadcast use vstd::utf8::group_utf8_lib;

/// The service's base URL.
pub open spec fn api_base() -> Seq<char> {
    "https://api.stripe.com/v1/"@
}

/// Per-client request parameters.
pub struct Params {
    /// The connected account on whose behalf requests are made.
    pub stripe_account: Option<String>,
}

/// The account a set of parameters acts for.
pub open spec fn account_of(p: Params) -> Option<Seq<char>> {
    match p.stripe_account {
        Some(a) => Some(a@),
        None => None,
    }
}

impl Default for Params {
    fn default() -> (r: Params)
        ensures
            r.stripe_account is None,
    {
        Params { stripe_account: None }
    }
}

impl Params {
    fn copy(&self) -> (r: Params)
        ensures
            account_of(r) == account_of(*self),
    {
        match &self.stripe_account {
            Some(a) => Params { stripe_account: Some(a.clone()) },
            None => Params { stripe_account: None },
        }
    }
}

/// HTTP methods the service is called with.
#[derive(Debug, Clone, Copy, PartialEq, Eq)]
pub enum Method {
    Get,
    Post,
    Delete,
}

/// A request ready to be sent.
pub struct WireRequest {
    pub method: Method,
    pub url: String,
    /// Header names and values, in the order they are sent.
    pub headers: Vec<(String, String)>,
    pub body: Option<String>,
}

/// An error reported by the service.
#[derive(Debug, Clone, PartialEq, Eq)]
pub struct RequestError {
    /// The response's HTTP status, taken from the transport.
    pub http_status: u16,
    pub error_type: Option<String>,
    pub message: Option<String>,
    pub code: Option<String>,
    pub param: Option<String>,
}

/// Why a call did not produce a value.
#[derive(Debug, Clone, PartialEq, Eq)]
pub enum ClientError {
    /// The service answered with an error status.
    Request(RequestError),
    /// The request body could not be encoded.
    Serialize(String),
    /// A successful response could not be read as the expected value.
    Deserialize(String),
    /// The service could not be reached.
    Http(String),
}

/// Whether a byte may stand in an HTTP header value: visible ASCII, space,
/// tab, or any byte from 128 up.
pub open spec fn header_byte_ok(b: u8) -> bool {
    (b >= 32 && b != 127) || b == 9
}

/// Whether a text may be sent as an HTTP header value.
pub open spec fn header_value_ok(s: Seq<char>) -> bool {
    forall|i: int| 0 <= i < encode_utf8(s).len() ==> header_byte_ok(#[trigger] encode_utf8(s)[i])
}

/// Whether `s` may be sent as an HTTP header value.
pub fn is_header_value(s: &str) -> (r: bool)
    ensures
        r == header_value_ok(s@),
{
    let b = s.as_bytes();
    let mut i: usize = 0;
    while i < b.len()
        invariant
            i <= b.len(),
            b@ == encode_utf8(s@),
            forall|j: int| 0 <= j < i ==> header_byte_ok(b@[j]),
        decreases b.len() - i,
    {
        let x = b[i];
        if !((x >= 32 && x != 127) || x == 9) {
            assert(!header_byte_ok(encode_utf8(s@)[i as int]));
            return false;
        }
        i = i + 1;
    }
    true
}

/// Whether a byte may stand unescaped in the path or query of a request
/// URI: the bytes a path keeps as they are, and `?`.
pub open spec fn uri_path_byte(b: u8) -> bool {
    b == 0x21 || (0x24 <= b <= 0x3B) || b == 0x3D || (0x3F <= b <= 0x5F) || (0x61 <= b <= 0x7A) || b
        == 0x7C || b == 0x7E
}

/// Longest path, in bytes, that a request accepts.
pub const MAX_PATH_LEN: usize = 32768;

/// Whether `p` is a path a request can be made for: it starts with `/`, is
/// at most `MAX_PATH_LEN` bytes long, and holds only bytes that need no
/// escaping.
pub open spec fn request_path_ok(p: Seq<char>) -> bool {
    &&& p.len() > 0
    &&& p[0] == '/'
    &&& encode_utf8(p).len() <= MAX_PATH_LEN
    &&& forall|i: int| 0 <= i < encode_utf8(p).len() ==> uri_path_byte(#[trigger] encode_utf8(p)[i])
}

/// Whether a request can be made for `path`.
pub fn is_request_path(path: &str) -> (r: bool)
    ensures
        r == request_path_ok(path@),
{
    if path.is_empty() {
        return false;
    }
    let b = path.as_bytes();
    if b.len() > MAX_PATH_LEN || b[0] != 47 {
        proof {
            vstd::utf8::encode_utf8_first_scalar(path@);
            assert(encode_utf8(path@) == vstd::utf8::encode_scalar(path@[0] as u32) + encode_utf8(
                path@.drop_first(),
            ));
            assert(('/' as u32) == 47u32);
            assert((47u32 & 0x7Fu32) == 47u32) by (bit_vector);
            if path@[0] == '/' {
                assert(encode_utf8(path@)[0] == 47);
            }
        }
        return false;
    }
    let mut i: usize = 0;
    while i < b.len()
        invariant
            i <= b.len(),
            b@ == encode_utf8(path@),
            forall|j: int| 0 <= j < i ==> uri_path_byte(b@[j]),
        decreases b.len() - i,
    {
        let x = b[i];
        if !(x == 0x21 || (0x24 <= x && x <= 0x3B) || x == 0x3D || (0x3F <= x && x <= 0x5F) || (0x61 <= x
            && x <= 0x7A) || x == 0x7C || x == 0x7E) {
            assert(!uri_path_byte(encode_utf8(path@)[i as int]));
            return false;
        }
        i = i + 1;
    }
    proof {
        // The first byte is `/`, which only the character `/` encodes to.
        vstd::utf8::encode_utf8_first_scalar(path@);
        let c = path@[0] as u32;
        assert(encode_utf8(path@) == vstd::utf8::encode_scalar(c) + encode_utf8(path@.drop_first()));
        vstd::utf8::char_is_scalar(path@[0]);
        if vstd::utf8::has_width_1_encoding(c) {
            assert((c & 0x7F) as u8 == 47u8 ==> c == 47u32) by (bit_vector)
                requires
                    c <= 0x7F,
            ;
            vstd::utf8::char_u32_cast(path@[0], c);
            assert(('/' as u32) == 47u32);
        } else {
            assert(encode_utf8(path@)[0] >= 0x80) by {
                vstd::utf8::encode_utf8_first_scalar(path@);
            }
        }
    }
    true
}

/// The headers sent with every request: the bearer credential, the form
/// content type, and the acting account where one is set.
pub open spec fn headers_spec(secret: Seq<char>, account: Option<Seq<char>>) -> Seq<(Seq<char>, Seq<char>)> {
    let base = seq![
        ("Authorization"@, "Bearer "@ + secret),
        ("Content-Type"@, "application/x-www-form-urlencoded"@),
    ];
    match account {
        Some(a) => base.push(("Stripe-Account"@, a)),
        None => base,
    }
}

/// The names and texts of a list of headers.
pub open spec fn headers_view(h: Seq<(String, String)>) -> Seq<(Seq<char>, Seq<char>)> {
    h.map_values(|p: (String, String)| (p.0@, p.1@))
}

/// A client of the service: a secret key and the parameters sent with each
/// request. Clients share nothing; deriving one copies what it needs.
pub struct Client {
    secret_key: String,
    params: Params,
}

impl Client {
    /// The secret key.
    pub closed spec fn secret(&self) -> Seq<char> {
        self.secret_key@
    }

    /// The account requests are made for, if any.
    pub closed spec fn account(&self) -> Option<Seq<char>> {
        account_of(self.params)
    }

    /// Whether every header this client sends is a valid header value.
    pub open spec fn headers_ok(&self) -> bool {
        header_value_ok("Bearer "@ + self.secret()) && match self.account() {
            Some(a) => header_value_ok(a),
            None => true,
        }
    }

    /// The address of `path`, which starts with `/`, under the base URL.
    pub fn url(path: &str) -> (r: String)
        requires
            path@.len() > 0,
            path@[0] == '/',
        ensures
            r@ == api_base() + path@.drop_first(),
    {
        proof {
            vstd::utf8::encode_utf8_first_scalar(path@);
            assert(encode_utf8(path@) == vstd::utf8::encode_scalar(path@[0] as u32) + encode_utf8(
                path@.drop_first(),
            ));
            assert(('/' as u32) == 47u32);
            assert((47u32 & 0x7Fu32) == 47u32) by (bit_vector);
            assert(vstd::utf8::encode_scalar(path@[0] as u32) =~= seq![47u8]);
            assert(vstd::utf8::pop_first_scalar(encode_utf8(path@)) =~= encode_utf8(path@.drop_first()));
            assert(vstd::utf8::is_char_boundary(encode_utf8(path@), 1));
        }
        let (_, rest) = path.split_at(1);
        proof {
            assert(rest.spec_bytes() =~= encode_utf8(path@.drop_first()));
            vstd::utf8::encode_utf8_decode_utf8(rest@);
            vstd::utf8::encode_utf8_decode_utf8(path@.drop_first());
        }
        let base = "https://api.stripe.com/v1/".to_owned();
        base.concat(rest)
    }

    /// A client with the given secret key and default parameters.
    pub fn new(secret_key: String) -> (r: Client)
        ensures
            r.secret() == secret_key@,
            r.account() is None,
    {
        Client { secret_key, params: Params::default() }
    }

    /// A new client with the same secret key and other parameters; `self`
    /// is unchanged.
    pub fn with(&self, params: Params) -> (r: Client)
        ensures
            r.secret() == self.secret(),
            r.account() == account_of(params),
    {
        Client { secret_key: self.secret_key.clone(), params }
    }

    /// Sets the account requests are made for.
    pub fn set_stripe_account(&mut self, account_id: String)
        ensures
            final(self).secret() == old(self).secret(),
            final(self).account() == Some(account_id@),
    {
        self.params.stripe_account = Some(account_id);
    }

    /// A copy of this client.
    pub fn duplicate(&self) -> (r: Client)
        ensures
            r.secret() == self.secret(),
            r.account() == self.account(),
    {
        Client { secret_key: self.secret_key.clone(), params: self.params.copy() }
    }

    /// Whether every header this client sends is a valid header value.
    pub fn check_headers(&self) -> (r: bool)
        ensures
            r == self.headers_ok(),
    {
        let auth = "Bearer ".to_owned().concat(self.secret_key.as_str());
        if !is_header_value(auth.as_str()) {
            return false;
        }
        match &self.params.stripe_account {
            Some(a) => is_header_value(a.as_str()),
            None => true,
        }
    }

    /// The headers sent with every request.
    pub fn headers(&self) -> (r: Vec<(String, String)>)
        requires
            self.headers_ok(),
        ensures
            headers_view(r@) == headers_spec(self.secret(), self.account()),
    {
        let mut h: Vec<(String, String)> = Vec::new();
        h.push(("Authorization".to_owned(), "Bearer ".to_owned().concat(self.secret_key.as_str())));
        h.push(("Content-Type".to_owned(), "application/x-www-form-urlencoded".to_owned()));
        match &self.params.stripe_account {
            Some(a) => {
                h.push(("Stripe-Account".to_owned(), a.clone()));
            },
            None => {},
        }
        assert(headers_view(h@) =~= headers_spec(self.secret(), self.account()));
        h
    }

    /// The request for `method` on `path` with an optional form body.
    pub fn request(&self, method: Method, path: &str, body: Option<String>) -> (r: WireRequest)
        requires
            request_path_ok(path@),
            self.headers_ok(),
        ensures
            r.method == method,
            r.url@ == api_base() + path@.drop_first(),
            headers_view(r.headers@) == headers_spec(self.secret(), self.account()),
            r.body == body,
    {
        WireRequest { method, url: Client::url(path), headers: self.headers(), body }
    }

    /// The request that reads the resource at `path`.
    pub fn get(&self, path: &str) -> (r: WireRequest)
        requires
            request_path_ok(path@),
            self.headers_ok(),
        ensures
            r.method == Method::Get,
            r.url@ == api_base() + path@.drop_first(),
            headers_view(r.headers@) == headers_spec(self.secret(), self.account()),
            r.body is None,
    {
        self.request(Method::Get, path, None)
    }

    /// The request that posts `form`, the form-encoded parameters, to `path`.
    pub fn post(&self, path: &str, form: String) -> (r: WireRequest)
        requires
            request_path_ok(path@),
            self.headers_ok(),
        ensures
            r.method == Method::Post,
            r.url@ == api_base() + path@.drop_first(),
            headers_view(r.headers@) == headers_spec(self.secret(), self.account()),
            r.body == Some(form),
    {
        self.request(Method::Post, path, Some(form))
    }

    /// The request that posts to `path` with no body.
    pub fn post_empty(&self, path: &str) -> (r: WireRequest)
        requires
            request_path_ok(path@),
            self.headers_ok(),
        ensures
            r.method == Method::Post,
            r.url@ == api_base() + path@.drop_first(),
            headers_view(r.headers@) == headers_spec(self.secret(), self.account()),
            r.body is None,
    {
        self.request(Method::Post, path, None)
    }

    /// The request that deletes the resource at `path`.
    pub fn delete(&self, path: &str) -> (r: WireRequest)
        requires
            request_path_ok(path@),
            self.headers_ok(),
        ensures
            r.method == Method::Delete,
            r.url@ == api_base() + path@.drop_first(),
            headers_view(r.headers@) == headers_spec(self.secret(), self.account()),
            r.body is None,
    {
        self.request(Method::Delete, path, None)
    }
}


/// Relies on `String::from_utf8`: succeeds exactly on valid UTF-8, and the
/// text then holds those bytes.
#[verifier::external_body]
fn utf8_text(b: Vec<u8>) -> (r: Option<String>)
    ensures
        r is Some <==> valid_utf8(b@),
        r matches Some(s) ==> encode_utf8(s@) == b@,
{
    String::from_utf8(b).ok()
}

/// How the message of an error envelope that could not be read begins.
pub open spec fn fallback_prefix() -> Seq<char> {
    "failed to deserialize error: "@
}

/// Whether a status code means success.
pub open spec fn is_success(status: u16) -> bool {
    200 <= status <= 299
}

/// The text a field holds, if any.
pub open spec fn opt_view(o: Option<String>) -> Option<Seq<char>> {
    match o {
        Some(s) => Some(s@),
        None => None,
    }
}

/// Whether a body is an error envelope `{"error": {...}}` whose `type`,
/// `message`, `code` and `param` are each a string, `null` or absent.
pub open spec fn envelope_ok(body: Seq<char>) -> bool {
    &&& json_valid(body)
    &&& json_object_at(body, "/error"@)
    &&& json_text_at(body, "/error/type"@) is Some
    &&& json_text_at(body, "/error/message"@) is Some
    &&& json_text_at(body, "/error/code"@) is Some
    &&& json_text_at(body, "/error/param"@) is Some
}

/// The form of the error that stands in for an unreadable envelope: a
/// message that says so, and no other detail.
pub open spec fn is_fallback(r: RequestError) -> bool {
    &&& r.message is Some
    &&& r.message->Some_0@.len() >= fallback_prefix().len()
    &&& r.message->Some_0@.subrange(0, fallback_prefix().len() as int) == fallback_prefix()
    &&& r.error_type is None && r.code is None && r.param is None
}

/// Whether `r` is the error read from `body` for a response with status
/// `status`: the status from the transport, the details from the envelope,
/// or the fallback where the body is no envelope.
pub open spec fn envelope_read(r: RequestError, status: u16, body: Seq<char>) -> bool {
    &&& r.http_status == status
    &&& if envelope_ok(body) {
        &&& opt_view(r.error_type) == json_text_at(body, "/error/type"@)->Some_0
        &&& opt_view(r.message) == json_text_at(body, "/error/message"@)->Some_0
        &&& opt_view(r.code) == json_text_at(body, "/error/code"@)->Some_0
        &&& opt_view(r.param) == json_text_at(body, "/error/param"@)->Some_0
    } else {
        is_fallback(r)
    }
}

impl RequestError {
    /// The error that stands in for an envelope that could not be read.
    pub fn fallback(status: u16, reason: &str) -> (r: RequestError)
        ensures
            r.http_status == status,
            r.message matches Some(m) && m@ == fallback_prefix() + reason@,
            r.error_type is None && r.code is None && r.param is None,
            is_fallback(r),
    {
        let message = "failed to deserialize error: ".to_owned().concat(reason);
        let r = RequestError { http_status: status, error_type: None, message: Some(message), code: None, param: None };
        assert(r.message->Some_0@.subrange(0, fallback_prefix().len() as int) =~= fallback_prefix());
        r
    }

    /// Reads the error envelope `{"error": {...}}` of a response with
    /// status `status`. Where the body is not such an envelope, the message
    /// says why.
    pub fn from_envelope(status: u16, body: &str) -> (r: RequestError)
        ensures
            envelope_read(r, status, body@),
    {
        match parse_json(body) {
            Ok(_) => {},
            Err(e) => {
                let text = json_error_text(&e);
                return RequestError::fallback(status, text.as_str());
            },
        }
        if object_at(body, "/error").is_none() {
            return RequestError::fallback(status, "missing object under `error`");
        }
        let error_type = match text_at(body, "/error/type") {
            Some(t) => t,
            None => {
                return RequestError::fallback(status, "field `type` is not a string");
            },
        };
        let message = match text_at(body, "/error/message") {
            Some(t) => t,
            None => {
                return RequestError::fallback(status, "field `message` is not a string");
            },
        };
        let code = match text_at(body, "/error/code") {
            Some(t) => t,
            None => {
                return RequestError::fallback(status, "field `code` is not a string");
            },
        };
        let param = match text_at(body, "/error/param") {
            Some(t) => t,
            None => {
                return RequestError::fallback(status, "field `param` is not a string");
            },
        };
        RequestError { http_status: status, error_type, message, code, param }
    }
}

impl Client {
    /// Reads a response. On a success status, the body as text, to be read
    /// as the expected value; a body that is not UTF-8 is a deserialization
    /// error. On any other status, the error the body reports, carrying the
    /// status.
    pub fn read_response(status: u16, body: Vec<u8>) -> (r: Result<String, ClientError>)
        ensures
            is_success(status) && valid_utf8(body@) ==> (r matches Ok(s) && encode_utf8(s@) == body@),
            is_success(status) && !valid_utf8(body@) ==> r matches Err(ClientError::Deserialize(_)),
            !is_success(status) && valid_utf8(body@) ==> (r matches Err(ClientError::Request(e))
                && envelope_read(e, status, decode_utf8(body@))),
            !is_success(status) && !valid_utf8(body@) ==> (r matches Err(ClientError::Request(e))
                && e.http_status == status && is_fallback(e)),
    {
        let text = utf8_text(body);
        if 200 <= status && status <= 299 {
            match text {
                Some(t) => Ok(t),
                None => Err(ClientError::Deserialize("response body is not valid UTF-8".to_owned())),
            }
        } else {
            match text {
                Some(t) => Err(ClientError::Request(RequestError::from_envelope(status, t.as_str()))),
                None => Err(ClientError::Request(RequestError::fallback(status, "response body is not valid UTF-8"))),
            }
        }
    }
}

} // verus!
