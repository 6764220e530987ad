use base64::Engine;
use p256::ecdsa::signature::Verifier;
use patron::errors::ServiceError;
use patron::handlers::push::{new_push_subscription, push_key_response};
use patron::models::push::PushSubscribeRequest;
use patron::services::push::{push_audience, push_outcome, should_delete_subscription, PushOutcome, PushService};

const B64: base64::engine::GeneralPurpose = base64::engine::general_purpose::URL_SAFE_NO_PAD;

fn key_pair() -> (String, String, p256::ecdsa::VerifyingKey) {
    let scalar = [7u8; 32];
    let signing = p256::ecdsa::SigningKey::from_slice(&scalar).unwrap();
    let verifying = *signing.verifying_key();
    let public = B64.encode(verifying.to_encoded_point(false).as_bytes());
    (public, B64.encode(scalar), verifying)
}

#[test]
fn push_from_env() {
    assert!(PushService::from_env(None, Some("k".to_owned()), None).is_none());
    assert!(PushService::from_env(Some("k".to_owned()), Some(" ".to_owned()), None).is_none());
    let s = PushService::from_env(Some("pub".to_owned()), Some("priv".to_owned()), None).unwrap();
    assert_eq!(s.public_key(), "pub");
    assert_eq!(push_key_response(Some(&s)).unwrap().public_key, "pub");
    assert_eq!(
        push_key_response(None).err(),
        Some(ServiceError::NotFound("Push notifications not configured".to_owned()))
    );
}

#[test]
fn audience_is_scheme_and_host() {
    assert_eq!(push_audience("https://fcm.googleapis.com/fcm/send/abc").as_deref(), Some("https://fcm.googleapis.com"));
    assert_eq!(push_audience("https://updates.push.services.mozilla.com:443/wpush/v2/x").as_deref(), Some("https://updates.push.services.mozilla.com"));
    assert_eq!(push_audience("not a url"), None);
    assert_eq!(push_audience("mailto:someone@example.com"), None);
}

#[test]
fn vapid_claims_escape_json() {
    let (public, private, _) = key_pair();
    let s = PushService::from_env(Some(public), Some(private), Some("mailto:\"a\\b\"\n\u{1}é@x".to_owned())).unwrap();
    let jwt = s.vapid_jwt("https://push.example", 5).unwrap();
    let claims = B64.decode(jwt.split('.').nth(1).unwrap()).unwrap();
    assert_eq!(
        String::from_utf8(claims).unwrap(),
        r#"{"aud":"https://push.example","exp":5,"sub":"mailto:\"a\\b\"\n\u0001é@x"}"#
    );
}

#[test]
fn vapid_jwt_is_signed_and_well_formed() {
    let (public, private, verifying) = key_pair();
    let s = PushService::from_env(Some(public), Some(format!(" {private} ")), Some("mailto:me@example.com".to_owned())).unwrap();
    let jwt = s.vapid_jwt("https://push.example", 1_700_043_200).unwrap();
    let parts: Vec<&str> = jwt.split('.').collect();
    assert_eq!(parts.len(), 3);
    assert_eq!(B64.decode(parts[0]).unwrap(), br#"{"typ":"JWT","alg":"ES256"}"#);
    let claims: serde_json::Value = serde_json::from_slice(&B64.decode(parts[1]).unwrap()).unwrap();
    assert_eq!(claims["aud"], "https://push.example");
    assert_eq!(claims["exp"], 1_700_043_200i64);
    assert_eq!(claims["sub"], "mailto:me@example.com");
    assert_eq!(String::from_utf8(B64.decode(parts[1]).unwrap()).unwrap(),
        r#"{"aud":"https://push.example","exp":1700043200,"sub":"mailto:me@example.com"}"#);
    let sig = p256::ecdsa::Signature::from_slice(&B64.decode(parts[2]).unwrap()).unwrap();
    let signing_input = format!("{}.{}", parts[0], parts[1]);
    assert!(verifying.verify(signing_input.as_bytes(), &sig).is_ok());
}

#[test]
fn bad_private_key_is_a_config_error() {
    let s = PushService::from_env(Some("pub".to_owned()), Some("!!!".to_owned()), None).unwrap();
    assert_eq!(s.vapid_jwt("https://push.example", 1), Err(ServiceError::Config("Invalid VAPID_PRIVATE_KEY".to_owned())));
    let zero = PushService::from_env(Some("pub".to_owned()), Some(B64.encode([0u8; 32])), None).unwrap();
    assert_eq!(zero.vapid_jwt("https://push.example", 1), Err(ServiceError::Config("Invalid VAPID_PRIVATE_KEY".to_owned())));
}

#[test]
fn wakeup_request_headers() {
    let (public, private, _) = key_pair();
    let s = PushService::from_env(Some(public.clone()), Some(private), None).unwrap();
    let r = s.wakeup_request_at("https://push.example/sub/1", 1_700_000_000).unwrap();
    assert_eq!(r.endpoint, "https://push.example/sub/1");
    assert_eq!(r.ttl, "86400");
    let jwt = s.vapid_jwt("https://push.example", 1_700_043_200).unwrap();
    assert_eq!(r.authorization, format!("vapid t={jwt},k={public}"));
    assert!(s.wakeup_request_at("no url", 0).is_none());
    assert!(s.wakeup_request("https://push.example/sub/1").is_some());
}

#[test]
fn push_status_classification() {
    assert_eq!(push_outcome(Some(201)), PushOutcome::Delivered);
    assert_eq!(push_outcome(Some(404)), PushOutcome::Gone);
    assert_eq!(push_outcome(Some(410)), PushOutcome::Gone);
    assert_eq!(push_outcome(Some(429)), PushOutcome::Failed);
    assert_eq!(push_outcome(Some(300)), PushOutcome::Failed);
    assert_eq!(push_outcome(None), PushOutcome::Failed);
    assert!(should_delete_subscription(PushOutcome::Gone));
    assert!(!should_delete_subscription(PushOutcome::Failed));
    assert!(!should_delete_subscription(PushOutcome::Delivered));
}

#[test]
fn push_subscription_row() {
    let body = PushSubscribeRequest { endpoint: "e".to_owned(), p256dh: "k".to_owned(), auth: "a".to_owned() };
    let row = new_push_subscription(1, None, body, 9);
    assert_eq!((row.id, row.user_id, row.endpoint.as_str(), row.p256dh.as_str(), row.auth.as_str(), row.created_at), (1, None, "e", "k", "a", 9));
}
