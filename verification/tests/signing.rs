use audible_api::auth::auth_headers::{
    auth_headers, auth_headers_at, canonical_request, signature, signature_from_outcome,
    signing_timestamp,
};
use audible_api::crypto::SignOutcome;
use audible_api::error::ErrorKind;
use base64::Engine;
use rsa::pkcs1::EncodeRsaPrivateKey;
use sha2::Digest;

const P: &[u8] = b"DFF758F706DF640EB4126B9054E9D6D0A4959133FB020B3DFFE62A9815DE47369C2D4F2B64EDA55B7366C18D62A24D05988B474FB6CB98FD2C5F2755F7FA1491";
const Q: &[u8] = b"F6E45F7A94E81D72E945430E6A4CAAE523FF010E632E308FDF3B04CCC9E36B41073CD9551B203FA357B768B2FD27A77F0CD0E0DD3B48718F0F59EEB9DFF01523";

fn test_key() -> rsa::RsaPrivateKey {
    let p = rsa::BigUint::parse_bytes(P, 16).unwrap();
    let q = rsa::BigUint::parse_bytes(Q, 16).unwrap();
    rsa::RsaPrivateKey::from_p_q(p, q, rsa::BigUint::from(65537u32)).unwrap()
}

fn test_pem() -> String {
    test_key().to_pkcs1_pem(rsa::pkcs1::LineEnding::LF).unwrap().to_string()
}

fn verifies(canonical: &str, header_value: &str, date: &str) -> bool {
    let (encoded, stamped) = header_value.split_once(':').unwrap();
    if stamped != date {
        return false;
    }
    let sig = base64::engine::general_purpose::STANDARD.decode(encoded).unwrap();
    let hashed = sha2::Sha256::digest(canonical.as_bytes());
    test_key()
        .to_public_key()
        .verify(rsa::Pkcs1v15Sign::new::<rsa::sha2::Sha256>(), &hashed, &sig)
        .is_ok()
}

#[test]
fn canonical_request_joins_fields_with_line_feeds() {
    let bytes = canonical_request("GET", "/1.0/library", "2024-01-01T00:00:00Z", b"", "T");
    assert_eq!(bytes, b"GET\n/1.0/library\n2024-01-01T00:00:00Z\n\nT".to_vec());
    let bytes = canonical_request("POST", "/p", "d", "{\"a\":\"é\"}".as_bytes(), "tök");
    assert_eq!(bytes, "POST\n/p\nd\n{\"a\":\"é\"}\ntök".as_bytes().to_vec());
}

#[test]
fn signature_verifies_and_depends_on_timestamp() {
    let pem = test_pem();
    let date = "2024-01-01T00:00:00Z";
    let first = signature("GET", "/1.0/library", b"", "T", &pem, date).unwrap();
    assert!(first.ends_with(":2024-01-01T00:00:00Z"));
    assert!(verifies("GET\n/1.0/library\n2024-01-01T00:00:00Z\n\nT", &first, date));

    let again = signature("GET", "/1.0/library", b"", "T", &pem, date).unwrap();
    assert_eq!(first, again);

    let other_date = "2024-01-01T00:00:01Z";
    let second = signature("GET", "/1.0/library", b"", "T", &pem, other_date).unwrap();
    assert!(verifies("GET\n/1.0/library\n2024-01-01T00:00:01Z\n\nT", &second, other_date));
    let first_sig = first.split_once(':').unwrap().0.to_string();
    let second_sig = second.split_once(':').unwrap().0.to_string();
    assert_ne!(first_sig, second_sig);
    assert!(!verifies("GET\n/1.0/library\n2024-01-01T00:00:00Z\n\nT", &second, other_date));
}

#[test]
fn signature_covers_body_and_token() {
    let pem = test_pem();
    let date = "2024-06-30T17:33:33.610470+00:00Z";
    let value = signature("POST", "/1.0/wishlist", b"{\"asin\":\"B0\"}", "tok", &pem, date).unwrap();
    assert!(verifies(
        "POST\n/1.0/wishlist\n2024-06-30T17:33:33.610470+00:00Z\n{\"asin\":\"B0\"}\ntok",
        &value,
        date
    ));
    assert!(!verifies(
        "POST\n/1.0/wishlist\n2024-06-30T17:33:33.610470+00:00Z\n{\"asin\":\"B1\"}\ntok",
        &value,
        date
    ));
    let encoded = value.split_once(':').unwrap().0;
    assert_eq!(encoded.len(), 172);
    assert!(encoded.ends_with('='));
    assert!(!encoded.ends_with("=="));
}

#[test]
fn invalid_key_is_reported() {
    let err = signature("GET", "/", b"", "T", "not a key", "dZ").unwrap_err();
    assert_eq!(err.kind, ErrorKind::InvalidPrivateKey);
    let err = signature("GET", "/", b"", "T", "", "dZ").unwrap_err();
    assert_eq!(err.kind, ErrorKind::InvalidPrivateKey);
}

#[test]
fn header_value_from_outcome() {
    let value = signature_from_outcome(SignOutcome::Signed(vec![0, 1, 2]), "D").unwrap();
    assert_eq!(value, "AAEC:D");
    let value = signature_from_outcome(SignOutcome::Signed(vec![0xff]), "D").unwrap();
    assert_eq!(value, "/w==:D");
    let value = signature_from_outcome(SignOutcome::Signed(vec![0xfb, 0xff]), "2024Z").unwrap();
    assert_eq!(value, "+/8=:2024Z");
    let value = signature_from_outcome(SignOutcome::Signed(Vec::new()), "").unwrap();
    assert_eq!(value, ":");
    let err = signature_from_outcome(SignOutcome::InvalidKey, "D").unwrap_err();
    assert_eq!(err.kind, ErrorKind::InvalidPrivateKey);
    let err = signature_from_outcome(SignOutcome::Failed, "D").unwrap_err();
    assert_eq!(err.kind, ErrorKind::SigningFailure);
    assert_eq!(err.message, "RSA signing failed");
}

#[test]
fn headers_at_a_given_time() {
    let pem = test_pem();
    let date = "2024-01-01T00:00:00Z";
    let headers = auth_headers_at("GET", "/1.0/library", b"", "T", &pem, date).unwrap();
    assert_eq!(headers.len(), 3);
    assert_eq!(headers[0], ("x-adp-token".to_string(), "T".to_string()));
    assert_eq!(headers[1], ("x-adp-alg".to_string(), "SHA256withRSA:1.0".to_string()));
    assert_eq!(headers[2].0, "x-adp-signature");
    assert_eq!(headers[2].1, signature("GET", "/1.0/library", b"", "T", &pem, date).unwrap());
    let err = auth_headers_at("GET", "/", b"", "T", "junk", date).unwrap_err();
    assert_eq!(err.kind, ErrorKind::InvalidPrivateKey);
}

#[test]
fn headers_now_carry_their_timestamp() {
    let pem = test_pem();
    let headers = auth_headers("GET", "/1.0/library", b"", "T", &pem).unwrap();
    assert_eq!(headers[0].1, "T");
    assert_eq!(headers[1].1, "SHA256withRSA:1.0");
    let (_, date) = headers[2].1.split_once(':').unwrap();
    assert!(date.ends_with("+00:00Z"));
    let canonical = format!("GET\n/1.0/library\n{}\n\nT", date);
    assert!(verifies(&canonical, &headers[2].1, date));
}

fn shape_of(date: &str) -> String {
    date.chars().map(|c| if c.is_ascii_digit() { '9' } else { c }).collect()
}

#[test]
fn timestamp_is_rfc3339_followed_by_z() {
    for _ in 0..50 {
        let date = signing_timestamp();
        let shape = shape_of(&date);
        let shapes = [
            "9999-99-99T99:99:99+99:99Z",
            "9999-99-99T99:99:99.999+99:99Z",
            "9999-99-99T99:99:99.999999+99:99Z",
            "9999-99-99T99:99:99.999999999+99:99Z",
        ];
        assert!(shapes.contains(&shape.as_str()), "unexpected timestamp {}", date);
        assert!(date.ends_with("+00:00Z"));
        let parsed = chrono::DateTime::parse_from_rfc3339(&date[..date.len() - 1]).unwrap();
        let now = chrono::Utc::now().timestamp();
        assert!((parsed.timestamp() - now).abs() <= 5);
    }
}
