//! Stripe: the webhook signature check, and the form parameters of the API
//! calls this app makes (customers, products, prices, checkout sessions,
//! billing-portal sessions). The HTTP transport itself lives with the
//! server.

use vstd::prelude::*;
use vstd::string::*;
use vstd::utf8::encode_utf8;
use crate::errors::ServiceError;
use crate::text::{hex_lower, trim, trimmed, pairs_view, concat_str, concat3, i64_to_string, chars_of, decimal, i64_to_decimal, views, split_parts, lemma_split_parts_nonempty, split_once, split_once_chars,
    chars_equal_str, parse_int, parse_i64};
use hmac::Mac;
use crate::clock::now_micros;

verus! {

/// Tolerated clock skew for webhook signature timestamps, in seconds
pub const WEBHOOK_TOLERANCE_SECS: i64 = 300;

/// HMAC-SHA256 of `message` under `key`, as the `hmac` crate computes it
/// with `Hmac::<sha2::Sha256>`.
pub uninterp spec fn hmac_sha256_tag(key: Seq<u8>, message: Seq<u8>) -> Seq<u8>;

/// HMAC-SHA256 through `hmac::Hmac::<sha2::Sha256>`: `new_from_slice`,
/// `update`, `finalize().into_bytes()`. The contract claims that the tag is
/// a function of key and message alone (`hmac_sha256_tag`), that it is 32
/// bytes long (SHA-256's output size), and that keying never fails:
/// `new_from_slice` in hmac 0.12 accepts keys of every length.
#[verifier::external_body]
fn hmac_sha256(key: &[u8], message: &[u8]) -> (r: Result<Vec<u8>, ()>)
    ensures
        r matches Ok(tag) ==> tag@ == hmac_sha256_tag(key@, message@) && tag@.len() == 32,
        r is Ok,
{
    match hmac::Hmac::<sha2::Sha256>::new_from_slice(key) {
        Ok(mut mac) => {
            mac.update(message);
            Ok(mac.finalize().into_bytes().to_vec())
        },
        Err(_) => Err(()),
    }
}

/// `hex::encode`: lowercase hex, two characters per byte, high nibble first.
#[verifier::external_body]
fn hex_encode(bytes: &[u8]) -> (s: String)
    ensures
        s@ == hex_lower(bytes@),
{
    hex::encode(bytes)
}

/// One `key=value` piece of a `Stripe-Signature` header applied to what
/// has been read so far: `t` sets (or, when unparsable, clears) the
/// timestamp, `v1` adds a signature, anything else is ignored.
pub open spec fn apply_header_part(state: (Option<i64>, Seq<Seq<char>>), part: Seq<char>) -> (Option<i64>, Seq<Seq<char>>) {
    match split_once(part, '=') {
        Some((key, value)) => {
            if key == "t"@ {
                match parse_int(value, i64::MIN as int, i64::MAX as int) {
                    Some(t) => (Some(t as i64), state.1),
                    None => (None, state.1),
                }
            } else if key == "v1"@ {
                (state.0, state.1.push(value))
            } else {
                state
            }
        },
        None => state,
    }
}

/// The timestamp and `v1` signatures read from comma-separated pieces, in order.
pub open spec fn read_header_parts(parts: Seq<Seq<char>>) -> (Option<i64>, Seq<Seq<char>>)
    decreases parts.len(),
{
    if parts.len() == 0 {
        (None, Seq::empty())
    } else {
        apply_header_part(read_header_parts(parts.drop_last()), parts.last())
    }
}

/// The timestamp and `v1` signatures of a `Stripe-Signature` header such as
/// `t=1700000000,v1=5257a8...,v0=...`.
pub open spec fn signature_header(header: Seq<char>) -> (Option<i64>, Seq<Seq<char>>) {
    read_header_parts(split_parts(header, ','))
}

fn apply_part(timestamp: &mut Option<i64>, signatures: &mut Vec<Vec<char>>, part: &Vec<char>)
    ensures
        (*final(timestamp), views(final(signatures)@)) == apply_header_part((*old(timestamp), views(old(signatures)@)), part@),
{
    match split_once_chars(part, '=') {
        Some((key, value)) => {
            if chars_equal_str(&key, "t") {
                *timestamp = parse_i64(&value);
            } else if chars_equal_str(&key, "v1") {
                let ghost before = views(signatures@);
                signatures.push(value);
                assert(views(signatures@) =~= before.push(value@));
            }
        },
        None => {},
    }
}

/// Read the timestamp and `v1` signatures of a `Stripe-Signature` header
pub fn parse_signature_header(header: &str) -> (r: (Option<i64>, Vec<Vec<char>>))
    ensures
        (r.0, views(r.1@)) == signature_header(header@),
{
    let h = chars_of(header);
    let mut timestamp: Option<i64> = None;
    let mut signatures: Vec<Vec<char>> = Vec::new();
    let mut current: Vec<char> = Vec::new();
    let mut i: usize = 0;
    proof {
        assert(h@.take(0) =~= Seq::<char>::empty());
        assert(views(signatures@) =~= Seq::<Seq<char>>::empty());
    }
    while i < h.len()
        invariant
            i <= h.len(),
            h@ == header@,
            current@ == split_parts(h@.take(i as int), ',').last(),
            (timestamp, views(signatures@)) == read_header_parts(split_parts(h@.take(i as int), ',').drop_last()),
        decreases h.len() - i,
    {
        let c = h[i];
        let ghost sp = split_parts(h@.take(i as int), ',');
        proof {
            lemma_split_parts_nonempty(h@.take(i as int), ',');
            assert(h@.take(i + 1).drop_last() =~= h@.take(i as int));
            assert(h@.take(i + 1).last() == c);
        }
        if c == ',' {
            proof {
                let sp2 = split_parts(h@.take(i + 1), ',');
                assert(sp2 == sp.push(Seq::empty()));
                assert(sp2.drop_last() =~= sp);
                assert(sp =~= sp.drop_last().push(sp.last()));
            }
            apply_part(&mut timestamp, &mut signatures, &current);
            current = Vec::new();
            proof {
                let sp2 = split_parts(h@.take(i + 1), ',');
                assert(current@ =~= sp2.last());
            }
        } else {
            current.push(c);
            proof {
                let sp2 = split_parts(h@.take(i + 1), ',');
                assert(sp2 == sp.update(sp.len() - 1, sp.last().push(c)));
                assert(sp2.drop_last() =~= sp.drop_last());
            }
        }
        i = i + 1;
    }
    proof {
        assert(h@.take(h.len() as int) =~= h@);
        let sp = split_parts(h@, ',');
        lemma_split_parts_nonempty(h@, ',');
        assert(sp =~= sp.drop_last().push(sp.last()));
    }
    apply_part(&mut timestamp, &mut signatures, &current);
    (timestamp, signatures)
}


/// The bytes of an ASCII character sequence.
pub open spec fn ascii_bytes(s: Seq<char>) -> Seq<u8> {
    Seq::new(s.len(), |i: int| s[i] as u8)
}

/// What Stripe signs for a webhook: the decimal timestamp, a `.`, the payload.
pub open spec fn signed_payload(timestamp: i64, payload: Seq<u8>) -> Seq<u8> {
    ascii_bytes(decimal(timestamp as int)) + seq![46u8] + payload
}

/// The `v1` signature Stripe sends for `payload` at `timestamp` under the
/// webhook secret: lowercase hex of HMAC-SHA256 over the signed payload.
pub open spec fn expected_signature(secret: Seq<char>, timestamp: i64, payload: Seq<u8>) -> Seq<char> {
    hex_lower(hmac_sha256_tag(encode_utf8(secret), signed_payload(timestamp, payload)))
}

/// The timestamp lies within the tolerance of `now` (both in seconds).
pub open spec fn within_tolerance(now: int, timestamp: int) -> bool {
    -WEBHOOK_TOLERANCE_SECS <= now - timestamp <= WEBHOOK_TOLERANCE_SECS
}

/// Why a webhook delivery is rejected at time `now` (seconds), or None when
/// it is authentic: a header without a parsable `t`, a timestamp outside the
/// tolerance, or no `v1` signature equal to the expected one.
pub open spec fn webhook_rejection(secret: Seq<char>, payload: Seq<u8>, header: Seq<char>, now: int) -> Option<Seq<char>> {
    let (timestamp, signatures) = signature_header(header);
    match timestamp {
        None => Some("Invalid Stripe signature"@),
        Some(t) => if !within_tolerance(now, t as int) {
            Some("Stripe signature timestamp out of tolerance"@)
        } else if !signatures.contains(expected_signature(secret, t, payload)) {
            Some("Stripe signature mismatch"@)
        } else {
            None
        },
    }
}

/// Only signed deliveries are accepted: a delivery accepted at `now` carries
/// a fresh timestamp and a `v1` signature equal to the HMAC of that
/// timestamp and the payload under the webhook secret.
pub proof fn lemma_accepted_delivery_is_signed(secret: Seq<char>, payload: Seq<u8>, header: Seq<char>, now: int)
    requires
        webhook_rejection(secret, payload, header, now) is None,
    ensures
        signature_header(header).0 is Some,
        within_tolerance(now, signature_header(header).0->0 as int),
        signature_header(header).1.contains(expected_signature(secret, signature_header(header).0->0, payload)),
{
}

/// Replays are bounded in time: a delivery whose timestamp lies outside
/// the tolerance is rejected whatever signatures it carries.
pub proof fn lemma_stale_delivery_rejected(secret: Seq<char>, payload: Seq<u8>, header: Seq<char>, now: int)
    requires
        signature_header(header).0 matches Some(t) && !within_tolerance(now, t as int),
    ensures
        webhook_rejection(secret, payload, header, now) == Some("Stripe signature timestamp out of tolerance"@),
{
}

/// A delivery Stripe signed is accepted: a fresh timestamp and, among the
/// `v1` signatures, the expected one.
pub proof fn lemma_signed_delivery_accepted(secret: Seq<char>, payload: Seq<u8>, header: Seq<char>, now: int)
    requires
        signature_header(header).0 matches Some(t) && within_tolerance(now, t as int)
            && signature_header(header).1.contains(expected_signature(secret, t, payload)),
    ensures
        webhook_rejection(secret, payload, header, now) is None,
{
}

/// The fields of an event's `data.object` the webhook reads, each None when
/// absent or not of the expected JSON type.
#[derive(Debug, Clone)]
pub struct StripeEventObject {
    /// `id`
    pub id: Option<String>,
    /// `mode` (checkout sessions)
    pub mode: Option<String>,
    /// `status` (subscriptions)
    pub status: Option<String>,
    /// `cancel_at_period_end` (subscriptions)
    pub cancel_at_period_end: Option<bool>,
    /// `current_period_end`, seconds since the epoch (subscriptions)
    pub current_period_end: Option<i64>,
    /// `amount_total`, in cents (checkout sessions)
    pub amount_total: Option<i64>,
    /// `payment_intent` (checkout sessions)
    pub payment_intent: Option<String>,
    /// `metadata.user_id`
    pub metadata_user_id: Option<String>,
    /// `metadata.tier_id`
    pub metadata_tier_id: Option<String>,
    /// `metadata.tier_level`
    pub metadata_tier_level: Option<String>,
    /// `metadata.post_id`
    pub metadata_post_id: Option<String>,
    /// `metadata.series_id`
    pub metadata_series_id: Option<String>,
}

/// A Stripe event as the webhook reads it from an authenticated payload
#[derive(Debug, Clone)]
pub struct StripeWebhookEvent {
    /// Event id (`id`), empty when absent
    pub id: String,
    /// Event type (`type`), empty when absent
    pub event_type: String,
    /// When Stripe created the event (`created`), seconds since the epoch
    pub created: Option<i64>,
    /// The event's `data.object`
    pub object: StripeEventObject,
}

/// The text of an optional string.
pub open spec fn opt_text(s: Option<String>) -> Option<Seq<char>> {
    match s {
        Some(t) => Some(t@),
        None => None,
    }
}

/// Whether `serde_json::from_slice::<serde_json::Value>` reads `payload`
/// as a JSON document.
pub uninterp spec fn json_parses(payload: Seq<u8>) -> bool;

/// `serde_json::from_slice::<serde_json::Value>(payload).is_ok()`. The
/// contract claims only that the answer is a function of the bytes.
#[verifier::external_body]
fn payload_is_json(payload: &[u8]) -> (b: bool)
    ensures
        b == json_parses(payload@),
{
    serde_json::from_slice::<serde_json::Value>(payload).is_ok()
}

/// The string at JSON `pointer` in the document `payload` holds, None when
/// the payload is not JSON or the value there is absent or not a string.
pub uninterp spec fn json_text_at(payload: Seq<u8>, pointer: Seq<char>) -> Option<Seq<char>>;

/// `serde_json::from_slice::<serde_json::Value>(payload)`, then
/// `Value::pointer(pointer)` and `Value::as_str`. The contract claims that
/// the result is a function of the bytes and the pointer.
#[verifier::external_body]
fn payload_text(payload: &[u8], pointer: &str) -> (r: Option<String>)
    ensures
        match (r, json_text_at(payload@, pointer@)) {
            (Some(v), Some(w)) => v@ == w,
            (None, None) => true,
            _ => false,
        },
{
    match serde_json::from_slice::<serde_json::Value>(payload) {
        Ok(v) => v.pointer(pointer).and_then(serde_json::Value::as_str).map(str::to_owned),
        Err(_) => None,
    }
}

/// The integer at JSON `pointer` in the document `payload` holds, None when
/// the payload is not JSON or the value there is absent or not an `i64`.
pub uninterp spec fn json_int_at(payload: Seq<u8>, pointer: Seq<char>) -> Option<i64>;

/// `serde_json::from_slice::<serde_json::Value>(payload)`, then
/// `Value::pointer(pointer)` and `Value::as_i64`. The contract claims that
/// the result is a function of the bytes and the pointer.
#[verifier::external_body]
fn payload_int(payload: &[u8], pointer: &str) -> (r: Option<i64>)
    ensures
        r == json_int_at(payload@, pointer@),
{
    match serde_json::from_slice::<serde_json::Value>(payload) {
        Ok(v) => v.pointer(pointer).and_then(serde_json::Value::as_i64),
        Err(_) => None,
    }
}

/// The boolean at JSON `pointer` in the document `payload` holds, None when
/// the payload is not JSON or the value there is absent or not a boolean.
pub uninterp spec fn json_bool_at(payload: Seq<u8>, pointer: Seq<char>) -> Option<bool>;

/// `serde_json::from_slice::<serde_json::Value>(payload)`, then
/// `Value::pointer(pointer)` and `Value::as_bool`. The contract claims that
/// the result is a function of the bytes and the pointer.
#[verifier::external_body]
fn payload_bool(payload: &[u8], pointer: &str) -> (r: Option<bool>)
    ensures
        r == json_bool_at(payload@, pointer@),
{
    match serde_json::from_slice::<serde_json::Value>(payload) {
        Ok(v) => v.pointer(pointer).and_then(serde_json::Value::as_bool),
        Err(_) => None,
    }
}

/// The text of an optional string field, empty when absent.
pub open spec fn text_or_empty(s: Option<Seq<char>>) -> Seq<char> {
    match s {
        Some(t) => t,
        None => Seq::empty(),
    }
}

/// `o` holds the fields of `data.object` that the JSON document `payload`
/// carries.
pub open spec fn object_decoded(payload: Seq<u8>, o: StripeEventObject) -> bool {
    &&& opt_text(o.id) == json_text_at(payload, "/data/object/id"@)
    &&& opt_text(o.mode) == json_text_at(payload, "/data/object/mode"@)
    &&& opt_text(o.status) == json_text_at(payload, "/data/object/status"@)
    &&& o.cancel_at_period_end == json_bool_at(payload, "/data/object/cancel_at_period_end"@)
    &&& o.current_period_end == json_int_at(payload, "/data/object/current_period_end"@)
    &&& o.amount_total == json_int_at(payload, "/data/object/amount_total"@)
    &&& opt_text(o.payment_intent) == json_text_at(payload, "/data/object/payment_intent"@)
    &&& opt_text(o.metadata_user_id) == json_text_at(payload, "/data/object/metadata/user_id"@)
    &&& opt_text(o.metadata_tier_id) == json_text_at(payload, "/data/object/metadata/tier_id"@)
    &&& opt_text(o.metadata_tier_level) == json_text_at(payload, "/data/object/metadata/tier_level"@)
    &&& opt_text(o.metadata_post_id) == json_text_at(payload, "/data/object/metadata/post_id"@)
    &&& opt_text(o.metadata_series_id) == json_text_at(payload, "/data/object/metadata/series_id"@)
}

/// `e` is the event the JSON document `payload` describes: its `id`,
/// `type` (each empty when absent), `created`, and `data.object` fields.
pub open spec fn event_decoded(payload: Seq<u8>, e: StripeWebhookEvent) -> bool {
    &&& e.id@ == text_or_empty(json_text_at(payload, "/id"@))
    &&& e.event_type@ == text_or_empty(json_text_at(payload, "/type"@))
    &&& e.created == json_int_at(payload, "/created"@)
    &&& object_decoded(payload, e.object)
}

fn text_or_new(s: Option<String>) -> (t: String)
    ensures
        t@ == text_or_empty(opt_text(s)),
{
    match s {
        Some(t) => t,
        None => String::new(),
    }
}

/// Read the event a webhook payload carries; None when it is not JSON
pub fn decode_event(payload: &[u8]) -> (r: Option<StripeWebhookEvent>)
    ensures
        r is Some <==> json_parses(payload@),
        r matches Some(e) ==> event_decoded(payload@, e),
{
    if !payload_is_json(payload) {
        return None;
    }
    let object = StripeEventObject {
        id: payload_text(payload, "/data/object/id"),
        mode: payload_text(payload, "/data/object/mode"),
        status: payload_text(payload, "/data/object/status"),
        cancel_at_period_end: payload_bool(payload, "/data/object/cancel_at_period_end"),
        current_period_end: payload_int(payload, "/data/object/current_period_end"),
        amount_total: payload_int(payload, "/data/object/amount_total"),
        payment_intent: payload_text(payload, "/data/object/payment_intent"),
        metadata_user_id: payload_text(payload, "/data/object/metadata/user_id"),
        metadata_tier_id: payload_text(payload, "/data/object/metadata/tier_id"),
        metadata_tier_level: payload_text(payload, "/data/object/metadata/tier_level"),
        metadata_post_id: payload_text(payload, "/data/object/metadata/post_id"),
        metadata_series_id: payload_text(payload, "/data/object/metadata/series_id"),
    };
    Some(StripeWebhookEvent {
        id: text_or_new(payload_text(payload, "/id")),
        event_type: text_or_new(payload_text(payload, "/type")),
        created: payload_int(payload, "/created"),
        object,
    })
}

/// `r` is the answer to a webhook delivery at time `now`: Forbidden with
/// the rejection's message when the signature check rejects it; else the
/// event the payload describes, or a bad request when it is not JSON.
pub open spec fn delivery_outcome(secret: Seq<char>, payload: Seq<u8>, header: Seq<char>, now: int, r: Result<StripeWebhookEvent, ServiceError>) -> bool {
    match webhook_rejection(secret, payload, header, now) {
        Some(m) => r matches Err(ServiceError::Forbidden(x)) && x@ == m,
        None => if json_parses(payload) {
            r matches Ok(e) && event_decoded(payload, e)
        } else {
            r matches Err(ServiceError::BadRequest(x)) && x@ == "Invalid webhook payload"@
        },
    }
}

/// Compare two signatures without stopping at the first difference
fn constant_time_eq(a: &Vec<char>, b: &Vec<char>) -> (eq: bool)
    ensures
        eq == (a@ == b@),
{
    if a.len() != b.len() {
        return false;
    }
    let mut acc: u8 = 0;
    let mut i: usize = 0;
    while i < a.len()
        invariant
            i <= a.len() == b.len(),
            (acc == 0) <==> (forall|j: int| 0 <= j < i ==> a@[j] == b@[j]),
        decreases a.len() - i,
    {
        let d: u8 = if a[i] != b[i] { 1 } else { 0 };
        let old_acc = acc;
        acc = acc | d;
        assert((old_acc | d) == 0u8 <==> (old_acc == 0u8 && d == 0u8)) by (bit_vector);
        i = i + 1;
    }
    proof {
        if acc == 0 {
            assert(a@ =~= b@);
        }
    }
    acc == 0
}

/// Build the bytes Stripe signs: decimal timestamp, `.`, payload
fn signed_payload_bytes(timestamp: i64, payload: &[u8]) -> (m: Vec<u8>)
    ensures
        m@ == signed_payload(timestamp, payload@),
{
    let digits = i64_to_decimal(timestamp);
    let mut m: Vec<u8> = Vec::new();
    let mut i: usize = 0;
    while i < digits.len()
        invariant
            i <= digits.len(),
            digits@ == decimal(timestamp as int),
            m@ == ascii_bytes(digits@.take(i as int)),
        decreases digits.len() - i,
    {
        m.push(digits[i] as u8);
        assert(ascii_bytes(digits@.take(i + 1)) =~= ascii_bytes(digits@.take(i as int)).push(digits@[i as int] as u8));
        i = i + 1;
    }
    assert(digits@.take(digits.len() as int) =~= digits@);
    m.push(46u8);
    let ghost head = m@;
    let mut j: usize = 0;
    while j < payload.len()
        invariant
            j <= payload.len(),
            m@ == head + payload@.take(j as int),
        decreases payload.len() - j,
    {
        m.push(payload[j]);
        assert(payload@.take(j + 1) =~= payload@.take(j as int).push(payload@[j as int]));
        j = j + 1;
    }
    assert(payload@.take(payload.len() as int) =~= payload@);
    assert(m@ =~= signed_payload(timestamp, payload@));
    m
}

/// Whole seconds since the epoch in the microsecond count `micros`, rounded down.
pub fn micros_to_secs(micros: i64) -> (secs: i64)
    ensures
        secs as int == micros as int / 1_000_000,
{
    if micros >= 0 {
        micros / 1_000_000
    } else {
        let m = micros as i128;
        let q = -((-(m + 1)) / 1_000_000) - 1;
        assert(q == m as int / 1_000_000) by (nonlinear_arith)
            requires
                m < 0,
                q == -((-(m + 1)) / 1_000_000) - 1,
        {
        }
        q as i64
    }
}

/// A minimal Stripe API client: the secret key for API calls and the
/// signing secret for webhooks.
#[derive(Debug, Clone)]
pub struct StripeService {
    secret_key: String,
    webhook_secret: String,
}

impl StripeService {
    /// The secret API key
    pub closed spec fn secret_key_view(&self) -> Seq<char> {
        self.secret_key@
    }

    /// The webhook signing secret
    pub closed spec fn webhook_secret_view(&self) -> Seq<char> {
        self.webhook_secret@
    }

    /// The secret API key (sk_test_... / sk_live_...), for HTTP basic auth
    pub fn secret_key(&self) -> (k: &str)
        ensures
            k@ == self.secret_key_view(),
    {
        self.secret_key.as_str()
    }

    /// Verify a webhook payload against its `Stripe-Signature` header at
    /// time `now_secs` (seconds since the epoch).
    pub fn verify_webhook_at(&self, payload: &[u8], signature_header: &str, now_secs: i64) -> (r: Result<StripeWebhookEvent, ServiceError>)
        ensures
            delivery_outcome(self.webhook_secret_view(), payload@, signature_header@, now_secs as int, r),
    {
        let (timestamp, signatures) = parse_signature_header(signature_header);
        let timestamp = match timestamp {
            Some(t) => t,
            None => return Err(ServiceError::Forbidden(String::from_str("Invalid Stripe signature"))),
        };
        let skew: i128 = now_secs as i128 - timestamp as i128;
        if skew < -(WEBHOOK_TOLERANCE_SECS as i128) || skew > WEBHOOK_TOLERANCE_SECS as i128 {
            return Err(ServiceError::Forbidden(String::from_str("Stripe signature timestamp out of tolerance")));
        }
        let message = signed_payload_bytes(timestamp, payload);
        let tag = match hmac_sha256(self.webhook_secret.as_str().as_bytes(), message.as_slice()) {
            Ok(tag) => tag,
            Err(_) => return Err(ServiceError::Forbidden(String::from_str("Invalid webhook secret"))),
        };
        let expected_text = hex_encode(tag.as_slice());
        let expected = chars_of(expected_text.as_str());
        let ghost want = expected_signature(self.webhook_secret_view(), timestamp, payload@);
        assert(expected@ == want);
        let mut found = false;
        let mut i: usize = 0;
        while i < signatures.len()
            invariant
                i <= signatures.len(),
                expected@ == want,
                found <==> exists|j: int| 0 <= j < i && views(signatures@)[j] == want,
            decreases signatures.len() - i,
        {
            if constant_time_eq(&signatures[i], &expected) {
                found = true;
            }
            proof {
                assert(views(signatures@)[i as int] == signatures@[i as int]@);
            }
            i = i + 1;
        }
        proof {
            let vs = views(signatures@);
            if found {
                let j = choose|j: int| 0 <= j < signatures.len() && vs[j] == want;
                assert(vs.contains(want));
            } else {
                assert(!vs.contains(want));
            }
        }
        if !found {
            return Err(ServiceError::Forbidden(String::from_str("Stripe signature mismatch")));
        }
        match decode_event(payload) {
            Some(event) => Ok(event),
            None => Err(ServiceError::BadRequest(String::from_str("Invalid webhook payload"))),
        }
    }

    /// Verify a webhook payload against its `Stripe-Signature` header now,
    /// and read the event it carries.
    ///
    /// # Errors
    /// Forbidden when the signature is missing, malformed, expired, or does
    /// not match; a bad request when the signed payload is not JSON.
    pub fn verify_webhook(&self, payload: &[u8], signature_header: &str) -> (r: Result<StripeWebhookEvent, ServiceError>)
        ensures
            exists|now: int| i64::MIN / 1_000_000 <= now <= i64::MAX / 1_000_000
                && #[trigger] delivery_outcome(self.webhook_secret_view(), payload@, signature_header@, now, r),
    {
        let micros = now_micros();
        let now = micros_to_secs(micros);
        assert(i64::MIN / 1_000_000 <= now <= i64::MAX / 1_000_000) by (nonlinear_arith)
            requires
                now as int == micros as int / 1_000_000,
                i64::MIN <= micros <= i64::MAX,
        {
        }
        let r = self.verify_webhook_at(payload, signature_header, now);
        assert(delivery_outcome(self.webhook_secret_view(), payload@, signature_header@, now as int, r));
        r
    }
}


/// Base URL of the Stripe API
pub const STRIPE_API: &'static str = "https://api.stripe.com/v1";

/// A Stripe object id plus the fields this app reads from responses
#[derive(Debug, Clone)]
pub struct StripeObject {
    /// Object id (cus_..., prod_..., price_..., cs_...)
    pub id: String,
    /// Hosted page URL (checkout / billing portal sessions)
    pub url: Option<String>,
}

/// A Stripe price to mint: a product of this name, and a price of this
/// amount and currency for it, recurring monthly or one-off
#[derive(Debug, Clone)]
pub struct PriceMint {
    /// Name of the new product
    pub product_name: String,
    /// Price in cents
    pub amount_cents: i32,
    /// Currency code
    pub currency: String,
    /// Whether the price recurs monthly (a subscription tier)
    pub recurring_monthly: bool,
}

/// A form-encoded POST to a Stripe endpoint
#[derive(Debug, Clone)]
pub struct StripeRequest {
    /// Path below the API base URL, e.g. `/customers`
    pub path: String,
    /// Form parameters, in order
    pub params: Vec<(String, String)>,
}

/// The request holds exactly this path and these parameters.
pub open spec fn request_is(r: StripeRequest, path: Seq<char>, params: Seq<(Seq<char>, Seq<char>)>) -> bool {
    r.path@ == path && pairs_view(r.params@) == params
}

fn pair(key: &str, value: &str) -> (p: (String, String))
    ensures
        p.0@ == key@,
        p.1@ == value@,
{
    (String::from_str(key), String::from_str(value))
}

/// The full URL of an endpoint path
pub fn api_url(path: &str) -> (url: String)
    ensures
        url@ == STRIPE_API@ + path@,
{
    concat_str(STRIPE_API, path)
}

/// The error for a failed Stripe call: `Stripe: ` and the message Stripe
/// gave (`error.message`), or `Stripe API error` when it gave none.
pub fn api_error(message: Option<&str>) -> (e: ServiceError)
    ensures
        e matches ServiceError::Unknown(m) && m@ == "Stripe: "@ + (match message {
            Some(text) => text@,
            None => "Stripe API error"@,
        }),
{
    let text = match message {
        Some(text) => text,
        None => "Stripe API error",
    };
    ServiceError::Unknown(concat_str("Stripe: ", text))
}

/// The parameters Stripe receives for each metadata entry of a checkout
/// session: `metadata[key]`, and for subscriptions also
/// `subscription_data[metadata][key]`, so the subscription carries it too.
pub open spec fn metadata_params(meta: Seq<(Seq<char>, Seq<char>)>, subscription: bool) -> Seq<(Seq<char>, Seq<char>)>
    decreases meta.len(),
{
    if meta.len() == 0 {
        Seq::empty()
    } else {
        let rest = metadata_params(meta.drop_last(), subscription);
        let (key, value) = meta.last();
        let with_meta = rest.push(("metadata["@ + key + "]"@, value));
        if subscription {
            with_meta.push(("subscription_data[metadata]["@ + key + "]"@, value))
        } else {
            with_meta
        }
    }
}

/// The checkout-session parameters: customer, mode, one line item of the
/// price, the two redirect URLs, then the metadata.
pub open spec fn checkout_params(
    customer_id: Seq<char>,
    price_id: Seq<char>,
    mode: Seq<char>,
    success_url: Seq<char>,
    cancel_url: Seq<char>,
    metadata: Seq<(Seq<char>, Seq<char>)>,
) -> Seq<(Seq<char>, Seq<char>)> {
    seq![
        ("customer"@, customer_id),
        ("mode"@, mode),
        ("line_items[0][price]"@, price_id),
        ("line_items[0][quantity]"@, "1"@),
        ("success_url"@, success_url),
        ("cancel_url"@, cancel_url),
    ] + metadata_params(metadata, mode == "subscription"@)
}

/// Every metadata entry of a checkout reaches Stripe as `metadata[key]`,
/// and, for a subscription, also as `subscription_data[metadata][key]`.
pub proof fn lemma_metadata_params_carry_every_entry(meta: Seq<(Seq<char>, Seq<char>)>, subscription: bool)
    ensures
        forall|i: int| 0 <= i < meta.len() ==>
            metadata_params(meta, subscription).contains(("metadata["@ + (#[trigger] meta[i]).0 + "]"@, meta[i].1)),
        subscription ==> forall|i: int| 0 <= i < meta.len() ==>
            metadata_params(meta, subscription).contains(("subscription_data[metadata]["@ + (#[trigger] meta[i]).0 + "]"@, meta[i].1)),
    decreases meta.len(),
{
    if meta.len() > 0 {
        let rest_meta = meta.drop_last();
        lemma_metadata_params_carry_every_entry(rest_meta, subscription);
        let rest = metadata_params(rest_meta, subscription);
        let (key, value) = meta.last();
        let with_meta = rest.push(("metadata["@ + key + "]"@, value));
        let all = metadata_params(meta, subscription);
        assert(all == if subscription { with_meta.push(("subscription_data[metadata]["@ + key + "]"@, value)) } else { with_meta });
        assert forall|i: int| 0 <= i < meta.len() implies
            all.contains(("metadata["@ + (#[trigger] meta[i]).0 + "]"@, meta[i].1)) by {
            if i == meta.len() - 1 {
                assert(all[rest.len() as int] == ("metadata["@ + key + "]"@, value));
            } else {
                assert(meta[i] == rest_meta[i]);
                assert(rest.contains(("metadata["@ + rest_meta[i].0 + "]"@, rest_meta[i].1)));
                let j = choose|j: int| 0 <= j < rest.len() && rest[j] == ("metadata["@ + rest_meta[i].0 + "]"@, rest_meta[i].1);
                assert(all[j] == rest[j]);
            }
        }
        if subscription {
            assert forall|i: int| 0 <= i < meta.len() implies
                all.contains(("subscription_data[metadata]["@ + (#[trigger] meta[i]).0 + "]"@, meta[i].1)) by {
                if i == meta.len() - 1 {
                    assert(all[rest.len() as int + 1] == ("subscription_data[metadata]["@ + key + "]"@, value));
                } else {
                    assert(meta[i] == rest_meta[i]);
                    assert(rest.contains(("subscription_data[metadata]["@ + rest_meta[i].0 + "]"@, rest_meta[i].1)));
                    let j = choose|j: int| 0 <= j < rest.len()
                        && rest[j] == ("subscription_data[metadata]["@ + rest_meta[i].0 + "]"@, rest_meta[i].1);
                    assert(all[j] == rest[j]);
                }
            }
        }
    }
}

/// A checkout session asks for the price for the customer in the mode, and
/// carries every metadata entry (into the subscription too, for a
/// subscription checkout).
pub proof fn lemma_checkout_carries_everything(
    customer_id: Seq<char>,
    price_id: Seq<char>,
    mode: Seq<char>,
    success_url: Seq<char>,
    cancel_url: Seq<char>,
    meta: Seq<(Seq<char>, Seq<char>)>,
)
    ensures
        checkout_params(customer_id, price_id, mode, success_url, cancel_url, meta).contains(("customer"@, customer_id)),
        checkout_params(customer_id, price_id, mode, success_url, cancel_url, meta).contains(("line_items[0][price]"@, price_id)),
        checkout_params(customer_id, price_id, mode, success_url, cancel_url, meta).contains(("mode"@, mode)),
        forall|i: int| 0 <= i < meta.len() ==>
            checkout_params(customer_id, price_id, mode, success_url, cancel_url, meta)
                .contains(("metadata["@ + (#[trigger] meta[i]).0 + "]"@, meta[i].1)),
        mode == "subscription"@ ==> forall|i: int| 0 <= i < meta.len() ==>
            checkout_params(customer_id, price_id, mode, success_url, cancel_url, meta)
                .contains(("subscription_data[metadata]["@ + (#[trigger] meta[i]).0 + "]"@, meta[i].1)),
{
    let sub = mode == "subscription"@;
    lemma_metadata_params_carry_every_entry(meta, sub);
    let head = seq![
        ("customer"@, customer_id),
        ("mode"@, mode),
        ("line_items[0][price]"@, price_id),
        ("line_items[0][quantity]"@, "1"@),
        ("success_url"@, success_url),
        ("cancel_url"@, cancel_url),
    ];
    let tail = metadata_params(meta, sub);
    let all = checkout_params(customer_id, price_id, mode, success_url, cancel_url, meta);
    assert(all == head + tail);
    assert(all[0] == ("customer"@, customer_id));
    assert(all[1] == ("mode"@, mode));
    assert(all[2] == ("line_items[0][price]"@, price_id));
    assert forall|i: int| 0 <= i < meta.len() implies
        all.contains(("metadata["@ + (#[trigger] meta[i]).0 + "]"@, meta[i].1)) by {
        let j = choose|j: int| 0 <= j < tail.len() && tail[j] == ("metadata["@ + meta[i].0 + "]"@, meta[i].1);
        assert(all[6 + j] == tail[j]);
    }
    if sub {
        assert forall|i: int| 0 <= i < meta.len() implies
            all.contains(("subscription_data[metadata]["@ + (#[trigger] meta[i]).0 + "]"@, meta[i].1)) by {
            let j = choose|j: int| 0 <= j < tail.len()
                && tail[j] == ("subscription_data[metadata]["@ + meta[i].0 + "]"@, meta[i].1);
            assert(all[6 + j] == tail[j]);
        }
    }
}

impl StripeService {
    /// Configure from the values of `STRIPE_SECRET_KEY` and
    /// `STRIPE_WEBHOOK_SECRET`. Returns None when no secret key is set or
    /// it is blank (payments disabled); a missing webhook secret is empty.
    pub fn from_env(secret_key: Option<String>, webhook_secret: Option<String>) -> (r: Option<Self>)
        ensures
            secret_key is None ==> r is None,
            secret_key matches Some(k) ==> (r is None <==> trimmed(k@).len() == 0),
            r matches Some(svc) ==> {
                &&& svc.secret_key_view() == secret_key->0@
                &&& svc.webhook_secret_view() == (match webhook_secret {
                    Some(w) => w@,
                    None => Seq::<char>::empty(),
                })
            },
    {
        let secret_key = match secret_key {
            Some(k) => k,
            None => return None,
        };
        if trim(secret_key.as_str()).is_empty() {
            return None;
        }
        let webhook_secret = match webhook_secret {
            Some(w) => w,
            None => String::new(),
        };
        Some(StripeService { secret_key, webhook_secret })
    }

    /// The request creating a Stripe customer for a user
    pub fn customer_request(&self, email: &str, user_id: &str) -> (r: StripeRequest)
        ensures
            request_is(r, "/customers"@, seq![("email"@, email@), ("metadata[user_id]"@, user_id@)]),
    {
        let mut params: Vec<(String, String)> = Vec::new();
        params.push(pair("email", email));
        params.push(pair("metadata[user_id]", user_id));
        let r = StripeRequest { path: String::from_str("/customers"), params };
        assert(pairs_view(r.params@) =~= seq![("email"@, email@), ("metadata[user_id]"@, user_id@)]);
        r
    }

    /// The request creating a product for a tier or sellable item
    pub fn product_request(&self, name: &str) -> (r: StripeRequest)
        ensures
            request_is(r, "/products"@, seq![("name"@, name@)]),
    {
        let mut params: Vec<(String, String)> = Vec::new();
        params.push(pair("name", name));
        let r = StripeRequest { path: String::from_str("/products"), params };
        assert(pairs_view(r.params@) =~= seq![("name"@, name@)]);
        r
    }

    /// The request creating a price: monthly recurring for tiers, one-off
    /// otherwise. The amount is sent in decimal.
    pub fn price_request(&self, product_id: &str, amount_cents: i32, currency: &str, recurring_monthly: bool) -> (r: StripeRequest)
        ensures
            request_is(r, "/prices"@, {
                let base = seq![
                    ("product"@, product_id@),
                    ("unit_amount"@, decimal(amount_cents as int)),
                    ("currency"@, currency@),
                ];
                if recurring_monthly { base.push(("recurring[interval]"@, "month"@)) } else { base }
            }),
    {
        let mut params: Vec<(String, String)> = Vec::new();
        params.push(pair("product", product_id));
        params.push((String::from_str("unit_amount"), i64_to_string(amount_cents as i64)));
        params.push(pair("currency", currency));
        let ghost base = pairs_view(params@);
        if recurring_monthly {
            params.push(pair("recurring[interval]", "month"));
            assert(pairs_view(params@) =~= base.push(("recurring[interval]"@, "month"@)));
        }
        assert(base =~= seq![
            ("product"@, product_id@),
            ("unit_amount"@, decimal(amount_cents as int)),
            ("currency"@, currency@),
        ]);
        StripeRequest { path: String::from_str("/prices"), params }
    }

    /// The request archiving a price so no new checkout can use it
    pub fn archive_price_request(&self, price_id: &str) -> (r: StripeRequest)
        ensures
            request_is(r, "/prices/"@ + price_id@, seq![("active"@, "false"@)]),
    {
        let mut params: Vec<(String, String)> = Vec::new();
        params.push(pair("active", "false"));
        let r = StripeRequest { path: concat_str("/prices/", price_id), params };
        assert(pairs_view(r.params@) =~= seq![("active"@, "false"@)]);
        r
    }

    /// The request creating a checkout session. `mode` is `subscription`
    /// or `payment`; the metadata is attached for webhook fulfillment.
    pub fn checkout_session_request(
        &self,
        customer_id: &str,
        price_id: &str,
        mode: &str,
        success_url: &str,
        cancel_url: &str,
        metadata: &Vec<(String, String)>,
    ) -> (r: StripeRequest)
        ensures
            request_is(r, "/checkout/sessions"@, checkout_params(customer_id@, price_id@, mode@, success_url@, cancel_url@, pairs_view(metadata@))),
    {
        let mut params: Vec<(String, String)> = Vec::new();
        params.push(pair("customer", customer_id));
        params.push(pair("mode", mode));
        params.push(pair("line_items[0][price]", price_id));
        params.push(pair("line_items[0][quantity]", "1"));
        params.push(pair("success_url", success_url));
        params.push(pair("cancel_url", cancel_url));
        let ghost head = pairs_view(params@);
        let subscription = chars_equal_str(&chars_of(mode), "subscription");
        let mut i: usize = 0;
        while i < metadata.len()
            invariant
                i <= metadata.len(),
                subscription == (mode@ == "subscription"@),
                pairs_view(params@) == head + metadata_params(pairs_view(metadata@).take(i as int), subscription),
            decreases metadata.len() - i,
        {
            let (key, value) = &metadata[i];
            let ghost before = pairs_view(params@);
            let ghost taken = pairs_view(metadata@).take(i + 1);
            assert(taken.drop_last() =~= pairs_view(metadata@).take(i as int));
            assert(taken.last() == (key@, value@));
            let k1 = concat3("metadata[", key.as_str(), "]");
            let v1 = value.clone();
            params.push((k1, v1));
            assert(pairs_view(params@) =~= before.push((k1@, v1@)));
            let ghost mid = pairs_view(params@);
            if subscription {
                let k2 = concat3("subscription_data[metadata][", key.as_str(), "]");
                let v2 = value.clone();
                params.push((k2, v2));
                assert(pairs_view(params@) =~= mid.push((k2@, v2@)));
            }
            proof {
                let rest = metadata_params(pairs_view(metadata@).take(i as int), subscription);
                let with_meta = rest.push(("metadata["@ + key@ + "]"@, value@));
                if subscription {
                    assert(pairs_view(params@) =~= head + with_meta.push(("subscription_data[metadata]["@ + key@ + "]"@, value@)));
                } else {
                    assert(pairs_view(params@) =~= head + with_meta);
                }
            }
            i = i + 1;
        }
        assert(pairs_view(metadata@).take(metadata.len() as int) =~= pairs_view(metadata@));
        assert(head =~= seq![
            ("customer"@, customer_id@),
            ("mode"@, mode@),
            ("line_items[0][price]"@, price_id@),
            ("line_items[0][quantity]"@, "1"@),
            ("success_url"@, success_url@),
            ("cancel_url"@, cancel_url@),
        ]);
        StripeRequest { path: String::from_str("/checkout/sessions"), params }
    }

    /// The request creating a billing-portal session for self-service
    pub fn portal_session_request(&self, customer_id: &str, return_url: &str) -> (r: StripeRequest)
        ensures
            request_is(r, "/billing_portal/sessions"@, seq![("customer"@, customer_id@), ("return_url"@, return_url@)]),
    {
        let mut params: Vec<(String, String)> = Vec::new();
        params.push(pair("customer", customer_id));
        params.push(pair("return_url", return_url));
        let r = StripeRequest { path: String::from_str("/billing_portal/sessions"), params };
        assert(pairs_view(r.params@) =~= seq![("customer"@, customer_id@), ("return_url"@, return_url@)]);
        r
    }
}

/// The hosted URL of a checkout session, or an error when Stripe returned none
pub fn checkout_url(object: StripeObject) -> (r: Result<String, ServiceError>)
    ensures
        object.url matches Some(u) ==> (r matches Ok(v) && v@ == u@),
        object.url is None ==> (r matches Err(ServiceError::Unknown(m)) && m@ == "Stripe: checkout session has no URL"@),
{
    match object.url {
        Some(u) => Ok(u),
        None => Err(ServiceError::Unknown(String::from_str("Stripe: checkout session has no URL"))),
    }
}

/// The hosted URL of a billing-portal session, or an error when Stripe returned none
pub fn portal_url(object: StripeObject) -> (r: Result<String, ServiceError>)
    ensures
        object.url matches Some(u) ==> (r matches Ok(v) && v@ == u@),
        object.url is None ==> (r matches Err(ServiceError::Unknown(m)) && m@ == "Stripe: portal session has no URL"@),
{
    match object.url {
        Some(u) => Ok(u),
        None => Err(ServiceError::Unknown(String::from_str("Stripe: portal session has no URL"))),
    }
}

} // verus!
