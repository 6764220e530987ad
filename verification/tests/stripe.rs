use hmac::Mac;
use patron::errors::ServiceError;
use patron::services::stripe::{
    decode_event, StripeWebhookEvent, api_error, api_url, checkout_url, micros_to_secs, parse_signature_header, portal_url, StripeObject, StripeRequest,
    StripeService,
};

fn service(secret: &str) -> StripeService {
    StripeService::from_env(Some("sk_test_123".to_owned()), Some(secret.to_owned())).unwrap()
}

fn sign(secret: &str, timestamp: &str, payload: &[u8]) -> String {
    let mut mac = hmac::Hmac::<sha2::Sha256>::new_from_slice(secret.as_bytes()).unwrap();
    mac.update(timestamp.as_bytes());
    mac.update(b".");
    mac.update(payload);
    hex::encode(mac.finalize().into_bytes())
}

fn pairs(r: &StripeRequest) -> Vec<(&str, &str)> {
    r.params.iter().map(|(k, v)| (k.as_str(), v.as_str())).collect()
}

fn ids(r: Result<StripeWebhookEvent, ServiceError>) -> Result<String, ServiceError> {
    r.map(|e| e.id)
}

const PAYLOAD: &[u8] = br#"{"id":"evt_1","type":"checkout.session.completed"}"#;

#[test]
fn authentic_webhook_is_accepted() {
    let s = service("whsec_abc");
    let sig = sign("whsec_abc", "1700000000", PAYLOAD);
    let header = format!("t=1700000000,v1={sig}");
    assert_eq!(ids(s.verify_webhook_at(PAYLOAD, &header, 1_700_000_000)), Ok("evt_1".to_owned()));
    assert_eq!(ids(s.verify_webhook_at(PAYLOAD, &header, 1_700_000_300)), Ok("evt_1".to_owned()));
    assert_eq!(ids(s.verify_webhook_at(PAYLOAD, &header, 1_699_999_700)), Ok("evt_1".to_owned()));
}

#[test]
fn any_v1_signature_may_match() {
    let s = service("whsec_abc");
    let sig = sign("whsec_abc", "1700000000", PAYLOAD);
    let header = format!("t=1700000000,v1=deadbeef,v0=ignored,v1={sig}");
    assert_eq!(ids(s.verify_webhook_at(PAYLOAD, &header, 1_700_000_010)), Ok("evt_1".to_owned()));
}

#[test]
fn stale_webhook_is_rejected() {
    let s = service("whsec_abc");
    let sig = sign("whsec_abc", "1700000000", PAYLOAD);
    let header = format!("t=1700000000,v1={sig}");
    assert_eq!(
        ids(s.verify_webhook_at(PAYLOAD, &header, 1_700_000_301)),
        Err(ServiceError::Forbidden("Stripe signature timestamp out of tolerance".to_owned()))
    );
    assert_eq!(
        ids(s.verify_webhook_at(PAYLOAD, &header, 1_699_999_699)),
        Err(ServiceError::Forbidden("Stripe signature timestamp out of tolerance".to_owned()))
    );
}

#[test]
fn tampered_payload_or_wrong_secret_is_rejected() {
    let s = service("whsec_abc");
    let sig = sign("whsec_other", "1700000000", PAYLOAD);
    let header = format!("t=1700000000,v1={sig}");
    assert_eq!(
        ids(s.verify_webhook_at(PAYLOAD, &header, 1_700_000_000)),
        Err(ServiceError::Forbidden("Stripe signature mismatch".to_owned()))
    );
    let good = sign("whsec_abc", "1700000000", PAYLOAD);
    let header = format!("t=1700000000,v1={good}");
    assert_eq!(
        ids(s.verify_webhook_at(b"{\"id\":\"evt_2\"}", &header, 1_700_000_000)),
        Err(ServiceError::Forbidden("Stripe signature mismatch".to_owned()))
    );
}

#[test]
fn missing_or_bad_timestamp_is_rejected() {
    let s = service("whsec_abc");
    let sig = sign("whsec_abc", "1700000000", PAYLOAD);
    for header in [format!("v1={sig}"), format!("t=soon,v1={sig}"), String::new(), format!("t=1700000000,t=x,v1={sig}")] {
        assert_eq!(
            ids(s.verify_webhook_at(PAYLOAD, &header, 1_700_000_000)),
            Err(ServiceError::Forbidden("Invalid Stripe signature".to_owned()))
        );
    }
}

#[test]
fn signed_timestamp_is_the_decimal_of_the_parsed_value() {
    // "+1700000000" parses as 1700000000, and the signed text is its decimal form
    let s = service("whsec_abc");
    let sig = sign("whsec_abc", "1700000000", PAYLOAD);
    let header = format!("t=+1700000000,v1={sig}");
    assert_eq!(ids(s.verify_webhook_at(PAYLOAD, &header, 1_700_000_000)), Ok("evt_1".to_owned()));
}

#[test]
fn verify_webhook_uses_the_clock() {
    let s = service("whsec_abc");
    let now = chrono::Utc::now().timestamp().to_string();
    let sig = sign("whsec_abc", &now, PAYLOAD);
    assert_eq!(ids(s.verify_webhook(PAYLOAD, &format!("t={now},v1={sig}"))), Ok("evt_1".to_owned()));
    let old = sign("whsec_abc", "1000", PAYLOAD);
    assert!(ids(s.verify_webhook(PAYLOAD, &format!("t=1000,v1={old}"))).is_err());
}

#[test]
fn signature_header_parsing() {
    let (t, sigs) = parse_signature_header("t=12,v1=ab=cd,v0=zz,junk,v1=,t=13");
    assert_eq!(t, Some(13));
    let sigs: Vec<String> = sigs.iter().map(|v| v.iter().collect()).collect();
    assert_eq!(sigs, vec!["ab=cd".to_owned(), String::new()]);
    let (t, sigs) = parse_signature_header("");
    assert_eq!(t, None);
    assert!(sigs.is_empty());
}

#[test]
fn from_env_requires_a_secret_key() {
    assert!(StripeService::from_env(None, Some("w".to_owned())).is_none());
    assert!(StripeService::from_env(Some("   ".to_owned()), None).is_none());
    let s = StripeService::from_env(Some("sk_live".to_owned()), None).unwrap();
    assert_eq!(s.secret_key(), "sk_live");
}

#[test]
fn request_parameters() {
    let s = service("w");
    let c = s.customer_request("fan@example.com", "u-1");
    assert_eq!(c.path, "/customers");
    assert_eq!(pairs(&c), vec![("email", "fan@example.com"), ("metadata[user_id]", "u-1")]);
    let p = s.product_request("Gold");
    assert_eq!((p.path.as_str(), pairs(&p)), ("/products", vec![("name", "Gold")]));
    let monthly = s.price_request("prod_1", 1500, "usd", true);
    assert_eq!(monthly.path, "/prices");
    assert_eq!(
        pairs(&monthly),
        vec![("product", "prod_1"), ("unit_amount", "1500"), ("currency", "usd"), ("recurring[interval]", "month")]
    );
    let once = s.price_request("prod_1", -7, "usd", false);
    assert_eq!(pairs(&once), vec![("product", "prod_1"), ("unit_amount", "-7"), ("currency", "usd")]);
    let a = s.archive_price_request("price_9");
    assert_eq!((a.path.as_str(), pairs(&a)), ("/prices/price_9", vec![("active", "false")]));
    let portal = s.portal_session_request("cus_1", "http://x/settings");
    assert_eq!(portal.path, "/billing_portal/sessions");
    assert_eq!(pairs(&portal), vec![("customer", "cus_1"), ("return_url", "http://x/settings")]);
    assert_eq!(api_url("/customers"), "https://api.stripe.com/v1/customers");
}

#[test]
fn checkout_parameters_copy_metadata_to_subscriptions() {
    let s = service("w");
    let meta = vec![("user_id".to_owned(), "u".to_owned()), ("tier_level".to_owned(), "2".to_owned())];
    let sub = s.checkout_session_request("cus_1", "price_1", "subscription", "ok", "no", &meta);
    assert_eq!(sub.path, "/checkout/sessions");
    assert_eq!(
        pairs(&sub),
        vec![
            ("customer", "cus_1"),
            ("mode", "subscription"),
            ("line_items[0][price]", "price_1"),
            ("line_items[0][quantity]", "1"),
            ("success_url", "ok"),
            ("cancel_url", "no"),
            ("metadata[user_id]", "u"),
            ("subscription_data[metadata][user_id]", "u"),
            ("metadata[tier_level]", "2"),
            ("subscription_data[metadata][tier_level]", "2"),
        ]
    );
    let pay = s.checkout_session_request("cus_1", "price_1", "payment", "ok", "no", &meta);
    assert_eq!(pairs(&pay)[6..], [("metadata[user_id]", "u"), ("metadata[tier_level]", "2")]);
}

#[test]
fn stripe_errors_and_urls() {
    assert_eq!(api_error(Some("No such customer")), ServiceError::Unknown("Stripe: No such customer".to_owned()));
    assert_eq!(api_error(None), ServiceError::Unknown("Stripe: Stripe API error".to_owned()));
    let with = StripeObject { id: "cs_1".to_owned(), url: Some("https://checkout".to_owned()) };
    assert_eq!(checkout_url(with.clone()), Ok("https://checkout".to_owned()));
    assert_eq!(portal_url(with), Ok("https://checkout".to_owned()));
    let without = StripeObject { id: "cs_1".to_owned(), url: None };
    assert_eq!(
        checkout_url(without.clone()),
        Err(ServiceError::Unknown("Stripe: checkout session has no URL".to_owned()))
    );
    assert_eq!(portal_url(without), Err(ServiceError::Unknown("Stripe: portal session has no URL".to_owned())));
}

#[test]
fn micros_round_down_to_seconds() {
    assert_eq!(micros_to_secs(1_999_999), 1);
    assert_eq!(micros_to_secs(0), 0);
    assert_eq!(micros_to_secs(-1), -1);
    assert_eq!(micros_to_secs(-1_000_000), -1);
    assert_eq!(micros_to_secs(-1_000_001), -2);
    assert_eq!(micros_to_secs(i64::MIN), -9_223_372_036_855);
}

#[test]
fn signed_payload_must_be_json() {
    let s = service("whsec_abc");
    let body: &[u8] = b"not json";
    let sig = sign("whsec_abc", "1700000000", body);
    let header = format!("t=1700000000,v1={sig}");
    assert_eq!(
        ids(s.verify_webhook_at(body, &header, 1_700_000_000)),
        Err(ServiceError::BadRequest("Invalid webhook payload".to_owned()))
    );
}

#[test]
fn webhook_payload_fields_are_read() {
    let body = br#"{"id":"evt_9","type":"customer.subscription.updated","created":1700000123,
        "data":{"object":{"id":"sub_1","status":"active","cancel_at_period_end":true,"current_period_end":1700999999,
        "amount_total":"12","metadata":{"user_id":"u","tier_id":"t","tier_level":"2"}}}}"#;
    let e = decode_event(body).unwrap();
    assert_eq!((e.id.as_str(), e.event_type.as_str(), e.created), ("evt_9", "customer.subscription.updated", Some(1_700_000_123)));
    let o = e.object;
    assert_eq!((o.id.as_deref(), o.status.as_deref(), o.mode), (Some("sub_1"), Some("active"), None));
    assert_eq!((o.cancel_at_period_end, o.current_period_end, o.amount_total), (Some(true), Some(1_700_999_999), None));
    assert_eq!(
        (o.metadata_user_id.as_deref(), o.metadata_tier_id.as_deref(), o.metadata_tier_level.as_deref(), o.metadata_post_id),
        (Some("u"), Some("t"), Some("2"), None)
    );
    let bare = decode_event(b"[1, 2]").unwrap();
    assert_eq!((bare.id.as_str(), bare.event_type.as_str(), bare.created), ("", "", None));
    assert!(decode_event(b"{oops").is_none());
}
