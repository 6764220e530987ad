//! Web Push notifications via VAPID (RFC 8292), payload-less.
//!
//! Pushes carry no payload — the service worker wakes and fetches the latest
//! post itself — so only VAPID JWT signing is needed, not RFC 8291 payload
//! encryption. The HTTP request itself is sent by the server.

use vstd::prelude::*;
use vstd::string::*;
use vstd::utf8::encode_utf8;
use crate::errors::ServiceError;
use crate::text::{trim, trimmed, concat_str, concat3, i64_to_string, decimal, hex_digit_lower};
use crate::clock::now_micros;
use crate::services::stripe::micros_to_secs;
use base64::Engine;
use p256::ecdsa::signature::Signer;

verus! {

/// Push message TTL in seconds (how long push services queue the wake-up)
pub const PUSH_TTL_SECS: u32 = 86_400;

/// VAPID JWT lifetime in seconds (max allowed is 24h)
pub const JWT_LIFETIME_SECS: i64 = 43_200;

/// The VAPID subject used when `VAPID_SUBJECT` is not set
pub const DEFAULT_SUBJECT: &'static str = "mailto:admin@localhost";

/// The JOSE header of every VAPID JWT
pub const JWT_HEADER: &'static str = "{\"typ\":\"JWT\",\"alg\":\"ES256\"}";

/// Result of pushing to one endpoint
#[derive(Debug, Clone, Copy, PartialEq, Eq, Structural)]
pub enum PushOutcome {
    /// Accepted by the push service
    Delivered,
    /// Subscription is gone (404/410): delete it
    Gone,
    /// Other failure: keep the subscription, log the error
    Failed,
}

/// A character of the URL-safe base64 alphabet.
pub open spec fn b64_char(n: int) -> char {
    if n < 26 {
        ((65 + n) as u8) as char
    } else if n < 52 {
        ((71 + n) as u8) as char
    } else if n < 62 {
        ((n - 4) as u8) as char
    } else if n == 62 {
        '-'
    } else {
        '_'
    }
}

/// URL-safe base64 without padding: each 3 bytes become 4 characters, a
/// final 1 or 2 bytes become 2 or 3.
pub open spec fn base64url(bytes: Seq<u8>) -> Seq<char>
    decreases bytes.len(),
{
    if bytes.len() == 0 {
        Seq::empty()
    } else if bytes.len() == 1 {
        seq![b64_char(bytes[0] as int / 4), b64_char((bytes[0] as int % 4) * 16)]
    } else if bytes.len() == 2 {
        seq![
            b64_char(bytes[0] as int / 4),
            b64_char((bytes[0] as int % 4) * 16 + bytes[1] as int / 16),
            b64_char((bytes[1] as int % 16) * 4),
        ]
    } else {
        seq![
            b64_char(bytes[0] as int / 4),
            b64_char((bytes[0] as int % 4) * 16 + bytes[1] as int / 16),
            b64_char((bytes[1] as int % 16) * 4 + bytes[2] as int / 64),
            b64_char(bytes[2] as int % 64),
        ] + base64url(bytes.skip(3))
    }
}

/// `base64::engine::general_purpose::URL_SAFE_NO_PAD.encode`
#[verifier::external_body]
fn base64url_encode(bytes: &[u8]) -> (s: String)
    ensures
        s@ == base64url(bytes@),
{
    base64::engine::general_purpose::URL_SAFE_NO_PAD.encode(bytes)
}

/// The bytes `URL_SAFE_NO_PAD.decode` reads from `text`, or None when it
/// rejects it.
pub uninterp spec fn base64url_decoded(text: Seq<char>) -> Option<Seq<u8>>;

/// `base64::engine::general_purpose::URL_SAFE_NO_PAD.decode(text).ok()`.
/// That engine takes no padding and rejects nonzero trailing bits, so it
/// accepts exactly the texts its encoder writes: the contract claims that
/// the result is a function of the text, that the bytes read encode back to
/// the text, and that a text is rejected only when no bytes encode to it.
#[verifier::external_body]
fn base64url_decode(text: &str) -> (r: Option<Vec<u8>>)
    ensures
        match (r, base64url_decoded(text@)) {
            (Some(v), Some(w)) => v@ == w,
            (None, None) => true,
            _ => false,
        },
        r matches Some(v) ==> base64url(v@) == text@,
        r is None ==> forall|b: Seq<u8>| #[trigger] base64url(b) != text@,
{
    match base64::engine::general_purpose::URL_SAFE_NO_PAD.decode(text) {
        Ok(v) => Some(v),
        Err(_) => None,
    }
}

/// How `serde_json` writes one character inside a string literal: quote
/// and backslash escaped with a backslash; backspace, tab, line feed, form
/// feed and carriage return as `\b`, `\t`, `\n`, `\f`, `\r`; any other
/// control character below U+0020 as `\u00` and two lowercase hex digits;
/// every other character as itself.
pub open spec fn json_escaped_char(c: char) -> Seq<char> {
    let n = c as u32;
    if c == '"' {
        seq!['\\', '"']
    } else if c == '\\' {
        seq!['\\', '\\']
    } else if n == 0x08 {
        seq!['\\', 'b']
    } else if n == 0x09 {
        seq!['\\', 't']
    } else if n == 0x0A {
        seq!['\\', 'n']
    } else if n == 0x0C {
        seq!['\\', 'f']
    } else if n == 0x0D {
        seq!['\\', 'r']
    } else if n < 0x20 {
        seq!['\\', 'u', '0', '0', hex_digit_lower(n as int / 16), hex_digit_lower(n as int % 16)]
    } else {
        seq![c]
    }
}

/// The escaped characters of a JSON string's contents.
pub open spec fn json_escaped(s: Seq<char>) -> Seq<char>
    decreases s.len(),
{
    if s.len() == 0 {
        Seq::empty()
    } else {
        json_escaped(s.drop_last()) + json_escaped_char(s.last())
    }
}

/// The JSON string literal `serde_json` writes for `s`: quoted, escaped.
pub open spec fn json_string_literal(s: Seq<char>) -> Seq<char> {
    seq!['"'] + json_escaped(s) + seq!['"']
}

/// `serde_json::to_string(s)` for a string: its JSON literal. Serializing a
/// `str` cannot fail.
#[verifier::external_body]
fn json_quote(s: &str) -> (q: String)
    ensures
        q@ == json_string_literal(s@),
{
    match serde_json::to_string(s) {
        Ok(q) => q,
        Err(_) => String::new(),
    }
}

/// The 64-byte ES256 signature (r || s) of `message` under the P-256 secret
/// scalar `key`, or None when `key` is not a valid scalar.
pub uninterp spec fn es256_signature(key: Seq<u8>, message: Seq<u8>) -> Option<Seq<u8>>;

/// `p256::ecdsa::SigningKey::from_slice(key)` then `Signer::try_sign`
/// (deterministic ECDSA, RFC 6979), the signature as `to_bytes()`. The
/// contract claims that the result is a function of key and message and
/// that a signature is 64 bytes; which keys are valid is left unstated.
#[verifier::external_body]
fn es256_sign(key: &[u8], message: &[u8]) -> (r: Option<Vec<u8>>)
    ensures
        match (r, es256_signature(key@, message@)) {
            (Some(v), Some(w)) => v@ == w && w.len() == 64,
            (None, None) => true,
            _ => false,
        },
{
    match p256::ecdsa::SigningKey::from_slice(key) {
        Ok(k) => match Signer::<p256::ecdsa::Signature>::try_sign(&k, message) {
            Ok(sig) => Some(sig.to_bytes().to_vec()),
            Err(_) => None,
        },
        Err(_) => None,
    }
}

/// The scheme and host of a URL as `url::Url::parse` reads them, or None
/// when it does not parse.
pub uninterp spec fn parsed_url_origin(url: Seq<char>) -> Option<(Seq<char>, Option<Seq<char>>)>;

/// `reqwest::Url::parse(url)`, then `scheme()` and `host_str()`. The
/// contract claims only that the result is a function of the URL text.
#[verifier::external_body]
fn url_origin(url: &str) -> (r: Option<(String, Option<String>)>)
    ensures
        match (r, parsed_url_origin(url@)) {
            (Some((scheme, host)), Some((s, h))) => scheme@ == s && match (host, h) {
                (Some(x), Some(y)) => x@ == y,
                (None, None) => true,
                _ => false,
            },
            (None, None) => true,
            _ => false,
        },
{
    match reqwest::Url::parse(url) {
        Ok(u) => Some((u.scheme().to_owned(), u.host_str().map(|h| h.to_owned()))),
        Err(_) => None,
    }
}

/// The VAPID audience of a push endpoint: `scheme://host`, or None when the
/// endpoint is not a URL with a host.
pub open spec fn audience_of(endpoint: Seq<char>) -> Option<Seq<char>> {
    match parsed_url_origin(endpoint) {
        Some((scheme, Some(host))) => Some(scheme + "://"@ + host),
        _ => None,
    }
}

/// The push service origin (`scheme://host`) of an endpoint
pub fn push_audience(endpoint: &str) -> (r: Option<String>)
    ensures
        match (r, audience_of(endpoint@)) {
            (Some(a), Some(b)) => a@ == b,
            (None, None) => true,
            _ => false,
        },
{
    match url_origin(endpoint) {
        Some((scheme, Some(host))) => Some(concat3(scheme.as_str(), "://", host.as_str())),
        _ => None,
    }
}

/// The VAPID claims JSON: audience, expiry, subject, keys in sorted order.
pub open spec fn claims_json(audience: Seq<char>, exp: int, subject: Seq<char>) -> Seq<char> {
    "{\"aud\":"@ + json_string_literal(audience) + ",\"exp\":"@ + decimal(exp) + ",\"sub\":"@
        + json_string_literal(subject) + "}"@
}

/// The signed part of a VAPID JWT: base64url header and claims, dot-joined.
pub open spec fn jwt_signing_input(audience: Seq<char>, exp: int, subject: Seq<char>) -> Seq<char> {
    base64url(encode_utf8(JWT_HEADER@)) + "."@ + base64url(encode_utf8(claims_json(audience, exp, subject)))
}

/// The VAPID JWT for `audience` expiring at `exp` under the base64url
/// private key `private_key`, or None when the key does not decode to a
/// valid P-256 scalar.
pub open spec fn vapid_jwt_spec(private_key: Seq<char>, subject: Seq<char>, audience: Seq<char>, exp: int) -> Option<Seq<char>> {
    let input = jwt_signing_input(audience, exp, subject);
    match base64url_decoded(trimmed(private_key)) {
        Some(key) => match es256_signature(key, encode_utf8(input)) {
            Some(sig) => Some(input + "."@ + base64url(sig)),
            None => None,
        },
        None => None,
    }
}

/// Web Push sender configured with the site's VAPID key pair
#[derive(Debug, Clone)]
pub struct PushService {
    public_key: String,
    private_key: String,
    subject: String,
}

/// A payload-less push to send: where, and the two headers
#[derive(Debug, Clone)]
pub struct WakeupRequest {
    /// The subscription endpoint
    pub endpoint: String,
    /// `Authorization: vapid t=<jwt>,k=<public key>`
    pub authorization: String,
    /// `TTL` header value, in seconds
    pub ttl: String,
}

impl PushService {
    /// VAPID public key (base64url)
    pub closed spec fn public_key_view(&self) -> Seq<char> {
        self.public_key@
    }

    /// VAPID private key scalar (base64url)
    pub closed spec fn private_key_view(&self) -> Seq<char> {
        self.private_key@
    }

    /// VAPID subject (mailto: or https: URL identifying the sender)
    pub closed spec fn subject_view(&self) -> Seq<char> {
        self.subject@
    }

    /// Configure from the values of `VAPID_PUBLIC_KEY`, `VAPID_PRIVATE_KEY`
    /// and `VAPID_SUBJECT`. Returns None when a key is missing or blank
    /// (push disabled); the subject defaults to `mailto:admin@localhost`.
    pub fn from_env(public_key: Option<String>, private_key: Option<String>, subject: Option<String>) -> (r: Option<Self>)
        ensures
            r is Some <==> (public_key matches Some(p) && private_key matches Some(q)
                && trimmed(p@).len() != 0 && trimmed(q@).len() != 0),
            r matches Some(svc) ==> {
                &&& svc.public_key_view() == public_key->0@
                &&& svc.private_key_view() == private_key->0@
                &&& svc.subject_view() == (match subject {
                    Some(s) => s@,
                    None => DEFAULT_SUBJECT@,
                })
            },
    {
        let public_key = match public_key {
            Some(p) => p,
            None => return None,
        };
        let private_key = match private_key {
            Some(q) => q,
            None => return None,
        };
        if trim(public_key.as_str()).is_empty() || trim(private_key.as_str()).is_empty() {
            return None;
        }
        let subject = match subject {
            Some(s) => s,
            None => String::from_str(DEFAULT_SUBJECT),
        };
        Some(PushService { public_key, private_key, subject })
    }

    /// The VAPID public key browsers use for `PushManager.subscribe`
    pub fn public_key(&self) -> (k: &str)
        ensures
            k@ == self.public_key_view(),
    {
        self.public_key.as_str()
    }

    /// Sign a VAPID JWT for the push service at `audience` (scheme://host)
    /// that expires at `exp` (seconds since the epoch)
    pub fn vapid_jwt(&self, audience: &str, exp: i64) -> (r: Result<String, ServiceError>)
        ensures
            match vapid_jwt_spec(self.private_key_view(), self.subject_view(), audience@, exp as int) {
                Some(jwt) => r matches Ok(t) && t@ == jwt,
                None => r matches Err(ServiceError::Config(m)) && m@ == "Invalid VAPID_PRIVATE_KEY"@,
            },
    {
        let header = base64url_encode(JWT_HEADER.as_bytes());
        let claims_text = concat3("{\"aud\":", json_quote(audience).as_str(), ",\"exp\":");
        let claims_text = concat3(claims_text.as_str(), i64_to_string(exp).as_str(), ",\"sub\":");
        let claims_text = concat3(claims_text.as_str(), json_quote(self.subject.as_str()).as_str(), "}");
        assert(claims_text@ =~= claims_json(audience@, exp as int, self.subject_view()));
        let claims = base64url_encode(claims_text.as_str().as_bytes());
        let signing_input = concat3(header.as_str(), ".", claims.as_str());
        assert(signing_input@ =~= jwt_signing_input(audience@, exp as int, self.subject_view()));
        let key = match base64url_decode(trim(self.private_key.as_str())) {
            Some(k) => k,
            None => return Err(ServiceError::Config(String::from_str("Invalid VAPID_PRIVATE_KEY"))),
        };
        let signature = match es256_sign(key.as_slice(), signing_input.as_str().as_bytes()) {
            Some(s) => s,
            None => return Err(ServiceError::Config(String::from_str("Invalid VAPID_PRIVATE_KEY"))),
        };
        let jwt = concat3(signing_input.as_str(), ".", base64url_encode(signature.as_slice()).as_str());
        Ok(jwt)
    }

    /// `req` is the push for `endpoint` signed at time `now` (seconds): the
    /// endpoint's audience, a JWT expiring `JWT_LIFETIME_SECS` later, the
    /// public key, and the TTL.
    pub open spec fn wakeup_ok(&self, endpoint: Seq<char>, now: int, req: WakeupRequest) -> bool {
        let aud = audience_of(endpoint)->0;
        let jwt = vapid_jwt_spec(self.private_key_view(), self.subject_view(), aud, now + JWT_LIFETIME_SECS);
        &&& audience_of(endpoint) is Some
        &&& jwt is Some
        &&& req.endpoint@ == endpoint
        &&& req.authorization@ == "vapid t="@ + jwt->0 + ",k="@ + self.public_key_view()
        &&& req.ttl@ == decimal(PUSH_TTL_SECS as int)
    }

    /// The `Authorization` header of a push carrying `jwt`
    pub fn authorization(&self, jwt: &str) -> (h: String)
        ensures
            h@ == "vapid t="@ + jwt@ + ",k="@ + self.public_key_view(),
    {
        concat_str(concat3("vapid t=", jwt, ",k=").as_str(), self.public_key.as_str())
    }

    /// The push to send to one subscription endpoint at time `now_secs`, or
    /// None (a failed push) when the endpoint is not a URL with a host or
    /// the JWT cannot be signed
    pub fn wakeup_request_at(&self, endpoint: &str, now_secs: i64) -> (r: Option<WakeupRequest>)
        requires
            now_secs <= i64::MAX - JWT_LIFETIME_SECS,
        ensures
            r is Some <==> (audience_of(endpoint@) matches Some(aud)
                && vapid_jwt_spec(self.private_key_view(), self.subject_view(), aud, now_secs + JWT_LIFETIME_SECS) is Some),
            r matches Some(req) ==> self.wakeup_ok(endpoint@, now_secs as int, req),
    {
        let audience = match push_audience(endpoint) {
            Some(a) => a,
            None => return None,
        };
        let jwt = match self.vapid_jwt(audience.as_str(), now_secs + JWT_LIFETIME_SECS) {
            Ok(j) => j,
            Err(_) => return None,
        };
        Some(WakeupRequest {
            endpoint: String::from_str(endpoint),
            authorization: self.authorization(jwt.as_str()),
            ttl: i64_to_string(PUSH_TTL_SECS as i64),
        })
    }

    /// `r` is what `wakeup_request_at` gives for `endpoint` at time `now`
    /// (seconds): the push signed then, or None exactly when the endpoint
    /// has no audience or the JWT expiring `JWT_LIFETIME_SECS` later cannot
    /// be signed.
    pub open spec fn wakeup_result_ok(&self, endpoint: Seq<char>, now: int, r: Option<WakeupRequest>) -> bool {
        match r {
            Some(req) => self.wakeup_ok(endpoint, now, req),
            None => !(audience_of(endpoint) matches Some(aud)
                && vapid_jwt_spec(self.private_key_view(), self.subject_view(), aud, now + JWT_LIFETIME_SECS) is Some),
        }
    }

    /// The push to send to one subscription endpoint now: the push signed at
    /// the clock's reading (whole seconds), or None (a failed push) exactly
    /// when at that reading it cannot be formed
    pub fn wakeup_request(&self, endpoint: &str) -> (r: Option<WakeupRequest>)
        ensures
            exists|now: int| i64::MIN / 1_000_000 <= now <= i64::MAX / 1_000_000
                && #[trigger] self.wakeup_result_ok(endpoint@, now, r),
            audience_of(endpoint@) is None ==> r is None,
    {
        let micros = now_micros();
        let now = micros_to_secs(micros);
        assert(i64::MIN / 1_000_000 <= now <= i64::MAX / 1_000_000) by (nonlinear_arith)
            requires
                now as int == micros as int / 1_000_000,
                i64::MIN <= micros <= i64::MAX,
        {
        }
        let r = self.wakeup_request_at(endpoint, now);
        assert(self.wakeup_result_ok(endpoint@, now as int, r));
        r
    }
}

/// What a push service's HTTP status means for the subscription: 2xx
/// delivered, 404 or 410 gone, anything else failed.
pub open spec fn outcome_of_status(status: u16) -> PushOutcome {
    if 200 <= status <= 299 {
        PushOutcome::Delivered
    } else if status == 404 || status == 410 {
        PushOutcome::Gone
    } else {
        PushOutcome::Failed
    }
}

/// Classify a push service response; `None` is a transport error
pub fn push_outcome(status: Option<u16>) -> (o: PushOutcome)
    ensures
        o == (match status {
            Some(s) => outcome_of_status(s),
            None => PushOutcome::Failed,
        }),
{
    match status {
        Some(s) => {
            if 200 <= s && s <= 299 {
                PushOutcome::Delivered
            } else if s == 404 || s == 410 {
                PushOutcome::Gone
            } else {
                PushOutcome::Failed
            }
        },
        None => PushOutcome::Failed,
    }
}

/// Only subscriptions the push service reports gone are deleted.
pub fn should_delete_subscription(outcome: PushOutcome) -> (d: bool)
    ensures
        d == (outcome == PushOutcome::Gone),
{
    match outcome {
        PushOutcome::Gone => true,
        _ => false,
    }
}

} // verus!
