use patron::boot::creator_email;
use patron::handlers::billing::subscription_checkout;
use patron::handlers::public::{lookup_of, Lookup};
use patron::models::tiers::Tier;
use patron::text::{chars_of, i64_to_string, parse_i32, parse_i64, split_once_chars, str_eq};

fn cv(s: &str) -> Vec<char> {
    s.chars().collect()
}

#[test]
fn decimal_rendering_matches_to_string() {
    for n in [0i64, 7, -7, 10, 1_500, -42, i64::MAX, i64::MIN] {
        assert_eq!(i64_to_string(n), n.to_string());
    }
}

#[test]
fn integer_parsing_matches_from_str() {
    for s in ["0", "+12", "-12", "007", "9223372036854775807", "-9223372036854775808", "9223372036854775808", "", "+", "-", "1 ", " 1", "1a", "--1", "+-1"] {
        assert_eq!(parse_i64(&cv(s)), s.parse::<i64>().ok(), "{s:?}");
    }
    for s in ["2147483647", "2147483648", "-2147483648", "-2147483649", "2"] {
        assert_eq!(parse_i32(&cv(s)), s.parse::<i32>().ok(), "{s:?}");
    }
}

#[test]
fn split_once_and_equality() {
    let (a, b) = split_once_chars(&cv("t=1=2"), '=').unwrap();
    assert_eq!((a, b), (cv("t"), cv("1=2")));
    assert!(split_once_chars(&cv("abc"), '=').is_none());
    assert!(str_eq("v1", "v1"));
    assert!(!str_eq("v1", "v0"));
    assert_eq!(chars_of("héllo"), cv("héllo"));
}

#[test]
fn blank_settings_are_unset() {
    assert_eq!(creator_email(Some("\t  \n".to_owned())), None);
    assert_eq!(creator_email(Some(" me@site.test ".to_owned())), Some(" me@site.test ".to_owned()));
    assert_eq!(creator_email(None), None);
}

#[test]
fn uuid_text_round_trips() {
    let id = 0x0123_4567_89ab_cdef_0011_2233_4455_6677u128;
    let tier = Tier {
        id,
        name: "Gold".to_owned(),
        description: None,
        level: 2,
        price_cents: 500,
        currency: "usd".to_owned(),
        stripe_product_id: None,
        stripe_price_id: Some("price_1".to_owned()),
        is_active: true,
        created_at: 0,
        updated_at: 0,
    };
    let checkout = subscription_checkout(&tier, 1).unwrap();
    let text = checkout.metadata[1].1.clone();
    assert_eq!(text, "01234567-89ab-cdef-0011-223344556677");
    assert_eq!(checkout.metadata[0].1, "00000000-0000-0000-0000-000000000001");
    assert!(matches!(lookup_of(text), Lookup::Id(x) if x == id));
    assert!(matches!(lookup_of("0123456789abcdef0011223344556677".to_owned()), Lookup::Id(x) if x == id));
    assert!(matches!(lookup_of("feed".to_owned()), Lookup::Slug(s) if s == "feed"));
    for form in [
        "01234567-89AB-CDEF-0011-223344556677",
        "{01234567-89ab-cdef-0011-223344556677}",
        "URN:uuid:01234567-89ab-cdef-0011-223344556677",
        "0123456789ABCDEF0011223344556677",
    ] {
        assert!(matches!(lookup_of(form.to_owned()), Lookup::Id(x) if x == id), "{form}");
    }
    for not_uuid in ["01234567-89ab-cdef-0011-22334455667g", "01234567_89ab-cdef-0011-223344556677", "(01234567-89ab-cdef-0011-223344556677)", "urn:uid:01234567-89ab-cdef-0011-2233445566778"] {
        assert!(matches!(lookup_of(not_uuid.to_owned()), Lookup::Slug(_)), "{not_uuid}");
    }
}
