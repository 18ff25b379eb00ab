use audible_api::api::Client;
use audible_api::auth::register::Registration;
use audible_api::auth::session::{locale_to_json, registration_to_json};
use audible_api::auth::Auth;
use audible_api::error::ErrorKind;
use audible_api::json::Json;
use audible_api::localization::Locale;
use audible_api::text::{i64_to_text, parse_i64};
use audible_api::text_map::TextMap;
use base64::Engine;
use rsa::pkcs1::EncodeRsaPrivateKey;
use sha2::Digest;

fn text(s: &str) -> Json {
    Json::Text(s.to_string())
}

fn object(members: Vec<(&str, Json)>) -> Json {
    Json::Object(members.into_iter().map(|(k, v)| (k.to_string(), v)).collect())
}

fn to_value(json: &Json) -> serde_json::Value {
    match json {
        Json::Null => serde_json::Value::Null,
        Json::Bool(b) => serde_json::Value::Bool(*b),
        Json::Number(n) => serde_json::Value::Number(n.parse().unwrap()),
        Json::Text(t) => serde_json::Value::String(t.clone()),
        Json::Array(items) => serde_json::Value::Array(items.iter().map(to_value).collect()),
        Json::Object(members) => serde_json::Value::Object(
            members.iter().map(|(k, v)| (k.clone(), to_value(v))).collect(),
        ),
    }
}

fn from_value(value: &serde_json::Value) -> Json {
    match value {
        serde_json::Value::Null => Json::Null,
        serde_json::Value::Bool(b) => Json::Bool(*b),
        serde_json::Value::Number(n) => Json::Number(n.to_string()),
        serde_json::Value::String(t) => Json::Text(t.clone()),
        serde_json::Value::Array(items) => Json::Array(items.iter().map(from_value).collect()),
        serde_json::Value::Object(members) => {
            Json::Object(members.iter().map(|(k, v)| (k.clone(), from_value(v))).collect())
        }
    }
}

fn cookies(pairs: &[(&str, &str)]) -> TextMap<String> {
    let mut map = TextMap::new();
    for (k, v) in pairs {
        map.insert(k.to_string(), v.to_string());
    }
    map
}

fn session(cookie_pairs: &[(&str, &str)], key: &str) -> Auth {
    Auth {
        locale: Locale {
            country_code: "us".to_string(),
            domain: "com".to_string(),
            market_place_id: "AF2M0KC94RCEA".to_string(),
        },
        device_registration: Registration {
            device_serial: "ABC123".to_string(),
            client_id: "414243313233234132435a4a5a474c4b324a4a564d".to_string(),
            adp_token: "{enc:abc}{key:def}".to_string(),
            device_private_key: key.to_string(),
            access_token: "Atna|x".to_string(),
            refresh_token: "Atnr|y".to_string(),
            expires: 1_700_003_600,
            website_cookies: cookies(cookie_pairs),
            store_authentication_cookie: "store".to_string(),
            device_info: object(vec![
                ("device_name", text("é phone")),
                ("n", Json::Number("12".to_string())),
                ("list", Json::Array(vec![Json::Bool(true), Json::Null])),
            ]),
            customer_info: Json::Null,
        },
        authorization_code: "CODE".to_string(),
        code_verifier: "VERIFIER".to_string(),
    }
}

fn assert_same(a: &Auth, b: &Auth) {
    assert_eq!(a.locale.country_code, b.locale.country_code);
    assert_eq!(a.locale.domain, b.locale.domain);
    assert_eq!(a.locale.market_place_id, b.locale.market_place_id);
    assert_eq!(a.authorization_code, b.authorization_code);
    assert_eq!(a.code_verifier, b.code_verifier);
    let (x, y) = (&a.device_registration, &b.device_registration);
    assert_eq!(x.device_serial, y.device_serial);
    assert_eq!(x.client_id, y.client_id);
    assert_eq!(x.adp_token, y.adp_token);
    assert_eq!(x.device_private_key, y.device_private_key);
    assert_eq!(x.access_token, y.access_token);
    assert_eq!(x.refresh_token, y.refresh_token);
    assert_eq!(x.expires, y.expires);
    assert_eq!(x.store_authentication_cookie, y.store_authentication_cookie);
    assert_eq!(to_value(&x.device_info), to_value(&y.device_info));
    assert_eq!(to_value(&x.customer_info), to_value(&y.customer_info));
    assert_eq!(x.website_cookies.len(), y.website_cookies.len());
    for i in 0..x.website_cookies.len() {
        let name = x.website_cookies.key_at(i);
        assert_eq!(y.website_cookies.get(name), Some(x.website_cookies.value_at(i)));
    }
}

#[test]
fn session_round_trips_through_its_stored_form() {
    let first = session(&[("session-id", "1"), ("ubid", "2"), ("x-main", "3")], "KEY");
    let loaded = Auth::from_json(&first.to_json()).unwrap();
    assert_same(&first, &loaded);
}

#[test]
fn session_round_trips_through_json_text() {
    let first = session(&[("b", "1"), ("a", "\"quoted\""), ("c", "")], "KEY\nLINES");
    let written = serde_json::to_string(&to_value(&first.to_json())).unwrap();
    let read: serde_json::Value = serde_json::from_str(&written).unwrap();
    let loaded = Auth::from_json(&from_value(&read)).unwrap();
    assert_same(&first, &loaded);
}

#[test]
fn cookie_order_does_not_matter() {
    let one = session(&[("a", "1"), ("b", "2")], "KEY");
    let other = session(&[("b", "2"), ("a", "1")], "KEY");
    assert_same(&one, &other);
    let loaded = Auth::from_json(&other.to_json()).unwrap();
    assert_same(&one, &loaded);
}

#[test]
fn stored_form_has_the_documented_members() {
    let json = session(&[("a", "1")], "KEY").to_json();
    assert_eq!(
        json.get("locale"),
        Some(&object(vec![
            ("country_code", text("us")),
            ("domain", text("com")),
            ("market_place_id", text("AF2M0KC94RCEA")),
        ]))
    );
    assert_eq!(json.get("authorization_code"), Some(&text("CODE")));
    assert_eq!(json.get("code_verifier"), Some(&text("VERIFIER")));
    let registration = json.get("device_registration").unwrap();
    assert_eq!(registration.get("expires"), Some(&Json::Number("1700003600".to_string())));
    assert_eq!(registration.get("website_cookies"), Some(&object(vec![("a", text("1"))])));
    assert_eq!(registration.get("customer_info"), Some(&Json::Null));
    assert_eq!(registration.get("adp_token"), Some(&text("{enc:abc}{key:def}")));
}

#[test]
fn parts_are_stored_alone() {
    let auth = session(&[], "KEY");
    assert_eq!(locale_to_json(&auth.locale).get("domain"), Some(&text("com")));
    let json = registration_to_json(&auth.device_registration);
    assert_eq!(json.get("device_serial"), Some(&text("ABC123")));
    assert_eq!(json.get("website_cookies"), Some(&Json::Object(vec![])));
}

#[test]
fn malformed_sessions_are_refused() {
    let good = session(&[("a", "1")], "KEY").to_json();
    let members = match good {
        Json::Object(members) => members,
        _ => unreachable!(),
    };
    for skipped in 0..members.len() {
        let mut kept = Vec::new();
        for (i, (name, value)) in members.iter().enumerate() {
            if i != skipped {
                kept.push((name.clone(), value.duplicate()));
            }
        }
        let err = Auth::from_json(&Json::Object(kept)).unwrap_err();
        assert_eq!(err.kind, ErrorKind::PersistenceError);
        assert_eq!(err.message, "Stored session is malformed");
    }
    for json in [Json::Null, text("x"), Json::Array(vec![]), object(vec![])] {
        assert_eq!(Auth::from_json(&json).unwrap_err().kind, ErrorKind::PersistenceError);
    }
}

#[test]
fn extensions_must_be_there() {
    for missing in ["device_info", "customer_info"] {
        let json = session(&[("a", "1")], "KEY").to_json();
        let mut members = match json {
            Json::Object(members) => members,
            _ => unreachable!(),
        };
        for (name, value) in members.iter_mut() {
            if name == "device_registration" {
                if let Json::Object(inner) = value {
                    inner.retain(|(n, _)| n != missing);
                }
            }
        }
        let err = Auth::from_json(&Json::Object(members)).unwrap_err();
        assert_eq!(err.kind, ErrorKind::PersistenceError);
    }
}

#[test]
fn expiry_must_be_a_whole_number() {
    for bad in [Json::Number("1.5".to_string()), text("12"), Json::Null] {
        let json = session(&[], "KEY").to_json();
        let mut members = match json {
            Json::Object(members) => members,
            _ => unreachable!(),
        };
        for (name, value) in members.iter_mut() {
            if name == "device_registration" {
                if let Json::Object(inner) = value {
                    inner.push(("expires".to_string(), bad.duplicate()));
                }
            }
        }
        assert!(Auth::from_json(&Json::Object(members)).is_err());
    }
}

#[test]
fn cookies_must_be_strings() {
    let json = session(&[], "KEY").to_json();
    let mut members = match json {
        Json::Object(members) => members,
        _ => unreachable!(),
    };
    for (name, value) in members.iter_mut() {
        if name == "device_registration" {
            if let Json::Object(inner) = value {
                inner.push(("website_cookies".to_string(), object(vec![("a", Json::Bool(true))])));
            }
        }
    }
    assert!(Auth::from_json(&Json::Object(members)).is_err());
}

#[test]
fn decimal_text_of_numbers() {
    assert_eq!(i64_to_text(0), "0");
    assert_eq!(i64_to_text(7), "7");
    assert_eq!(i64_to_text(10), "10");
    assert_eq!(i64_to_text(-1), "-1");
    assert_eq!(i64_to_text(1_700_003_600), "1700003600");
    assert_eq!(i64_to_text(i64::MAX), "9223372036854775807");
    assert_eq!(i64_to_text(i64::MIN), "-9223372036854775808");
    for n in [0, 5, -5, 99, 100, -100, i64::MAX, i64::MIN, 1234567890123] {
        assert_eq!(parse_i64(&i64_to_text(n)), Some(n));
        assert_eq!(i64_to_text(n), n.to_string());
    }
}

#[test]
fn decimal_text_is_parsed() {
    assert_eq!(parse_i64("0"), Some(0));
    assert_eq!(parse_i64("-0"), Some(0));
    assert_eq!(parse_i64("+0"), Some(0));
    assert_eq!(parse_i64("007"), Some(7));
    assert_eq!(parse_i64("+42"), Some(42));
    assert_eq!(parse_i64("-42"), Some(-42));
    assert_eq!(parse_i64("9223372036854775807"), Some(i64::MAX));
    assert_eq!(parse_i64("9223372036854775808"), None);
    assert_eq!(parse_i64("-9223372036854775808"), Some(i64::MIN));
    assert_eq!(parse_i64("-9223372036854775809"), None);
    assert_eq!(parse_i64("99999999999999999999999"), None);
    for bad in ["", "+", "-", "--1", "+-1", "1a", "a1", " 1", "1 ", "1.0", "١"] {
        assert_eq!(parse_i64(bad), None);
        assert!(bad.parse::<i64>().is_err());
    }
}

const P: &[u8] = b"DFF758F706DF640EB4126B9054E9D6D0A4959133FB020B3DFFE62A9815DE47369C2D4F2B64EDA55B7366C18D62A24D05988B474FB6CB98FD2C5F2755F7FA1491";
const Q: &[u8] = b"F6E45F7A94E81D72E945430E6A4CAAE523FF010E632E308FDF3B04CCC9E36B41073CD9551B203FA357B768B2FD27A77F0CD0E0DD3B48718F0F59EEB9DFF01523";

fn test_key() -> rsa::RsaPrivateKey {
    let p = rsa::BigUint::parse_bytes(P, 16).unwrap();
    let q = rsa::BigUint::parse_bytes(Q, 16).unwrap();
    rsa::RsaPrivateKey::from_p_q(p, q, rsa::BigUint::from(65537u32)).unwrap()
}

fn verifies(canonical: &str, header_value: &str) -> bool {
    let (encoded, _) = header_value.split_once(':').unwrap();
    let sig = base64::engine::general_purpose::STANDARD.decode(encoded).unwrap();
    let hashed = sha2::Sha256::digest(canonical.as_bytes());
    test_key()
        .to_public_key()
        .verify(rsa::Pkcs1v15Sign::new::<rsa::sha2::Sha256>(), &hashed, &sig)
        .is_ok()
}

#[test]
fn session_signs_requests() {
    let pem = test_key().to_pkcs1_pem(rsa::pkcs1::LineEnding::LF).unwrap().to_string();
    let auth = session(&[], &pem);
    let headers = auth.sign_request("GET", "/1.0/library", b"").unwrap();
    assert_eq!(headers[0], ("x-adp-token".to_string(), "{enc:abc}{key:def}".to_string()));
    assert_eq!(headers[1], ("x-adp-alg".to_string(), "SHA256withRSA:1.0".to_string()));
    let (_, date) = headers[2].1.split_once(':').unwrap();
    let canonical = format!("GET\n/1.0/library\n{}\n\n{{enc:abc}}{{key:def}}", date);
    assert!(verifies(&canonical, &headers[2].1));

    let err = session(&[], "junk").sign_request("GET", "/", b"").unwrap_err();
    assert_eq!(err.kind, ErrorKind::InvalidPrivateKey);
}

#[test]
fn client_is_bound_to_its_marketplace() {
    let client = Client::new(session(&[], "KEY"));
    assert_eq!(client.base_url(), "https://api.audible.com");
    assert_eq!(client.auth().authorization_code, "CODE");
    assert_eq!(client.endpoint_url("/1.0/library"), "https://api.audible.com/1.0/library");
    assert_eq!(
        Client::default_headers(),
        vec![
            ("accept".to_string(), "application/json".to_string()),
            ("accept-charset".to_string(), "utf-8".to_string()),
            ("content-type".to_string(), "application/json".to_string()),
            ("connection".to_string(), "keep-alive".to_string()),
        ]
    );
}

#[test]
fn request_path_is_the_url_without_the_base() {
    let client = Client::new(session(&[], "KEY"));
    assert_eq!(
        client.request_path("https://api.audible.com/1.0/library?num_results=1000"),
        "/1.0/library?num_results=1000"
    );
    assert_eq!(client.request_path("/1.0/library"), "/1.0/library");
    assert_eq!(client.request_path("https://api.audible.com"), "");
    assert_eq!(
        client.request_path("https://api.audible.comhttps://api.audible.com/x"),
        "/x"
    );
    assert_eq!(client.request_path("https://api.audible.de/1.0"), "https://api.audible.de/1.0");
}

#[test]
fn client_signs_the_path_of_the_url() {
    let pem = test_key().to_pkcs1_pem(rsa::pkcs1::LineEnding::LF).unwrap().to_string();
    let client = Client::new(session(&[], &pem));
    let headers = client
        .signed_headers("POST", "https://api.audible.com/1.0/wishlist", b"{\"asin\":\"B0\"}")
        .unwrap();
    let (_, date) = headers[2].1.split_once(':').unwrap();
    let canonical =
        format!("POST\n/1.0/wishlist\n{}\n{{\"asin\":\"B0\"}}\n{{enc:abc}}{{key:def}}", date);
    assert!(verifies(&canonical, &headers[2].1));
}
