use audible_api::auth::oauth::{
    auth_code_from_pairs, build_client_id, code_verifier_from_seed, build_device_serial, build_oauth_url,
    create_code_verifier, create_s256_code_challenge, extract_auth_code, is_username_domain,
    last_value_of, oauth_url, serial_from_uuid, username_flow_supported, PkceParameters,
};
use audible_api::error::ErrorKind;
use base64::Engine;
use sha2::Digest;

const VERIFIER: &str = "dBjftJeZ4CVP-mB92K27uhbUJU1p1r_wW1gFWFOEjXk";

#[test]
fn oauth_test_create_code_verifier() {
    let verifier = create_code_verifier();
    assert_eq!(verifier.len(), 43);
    println!("{:?}", verifier);
}

#[test]
fn oauth_test_build_oauth_url() {
    let (url, _, _) = build_oauth_url("us", "com", "ATVPDKIKX0DER", None, false)
        .expect("Failed to build OAuth URL");
    println!("{:?}", url);
}

#[test]
fn login_test_create_code_verifier() {
    let verifier = audible_api::login::create_code_verifier();
    assert_eq!(verifier.len(), 43);
    println!("{:?}", verifier);
}

#[test]
fn login_test_build_oauth_url() {
    let (url, _, _) = audible_api::login::build_oauth_url("us", "com", "ATVPDKIKX0DER", None, false)
        .expect("Failed to build OAuth URL");
    println!("{:?}", url);
}

#[test]
fn code_verifier_decodes_to_32_bytes() {
    for _ in 0..20 {
        let verifier = create_code_verifier();
        let decoded = base64::engine::general_purpose::URL_SAFE_NO_PAD
            .decode(verifier.as_bytes())
            .unwrap();
        assert_eq!(decoded.len(), 32);
        assert!(!verifier.contains('='));
    }
}

#[test]
fn code_verifier_from_known_seeds() {
    assert_eq!(
        code_verifier_from_seed(&[0u8; 32]),
        "AAAAAAAAAAAAAAAAAAAAAAAAAAAAAAAAAAAAAAAAAAA"
    );
    assert_eq!(
        code_verifier_from_seed(&[0xffu8; 32]),
        "__________________________________________8"
    );
    let seed: Vec<u8> = (0u8..32).collect();
    let verifier = code_verifier_from_seed(&seed);
    assert_eq!(verifier, "AAECAwQFBgcICQoLDA0ODxAREhMUFRYXGBkaGxwdHh8");
    assert_eq!(verifier.len(), 43);
    assert_eq!(code_verifier_from_seed(&[]), "");
    assert_eq!(code_verifier_from_seed(&[0xfb]), "-w");
    assert_eq!(code_verifier_from_seed(&[0xfb, 0xff]), "-_8");
    assert_eq!(code_verifier_from_seed(&[0xfb, 0xff, 0xbe]), "-_--");
}

#[test]
fn code_verifiers_differ() {
    assert_ne!(create_code_verifier(), create_code_verifier());
}

#[test]
fn pkce_challenge_is_sha256_of_verifier() {
    let pkce = PkceParameters::generate();
    assert_eq!(pkce.code_verifier.len(), 43);
    let digest = sha2::Sha256::digest(pkce.code_verifier.as_bytes());
    let expected = base64::engine::general_purpose::URL_SAFE_NO_PAD.encode(digest);
    assert_eq!(pkce.code_challenge, expected);
    assert_eq!(pkce.code_challenge.len(), 43);
}

#[test]
fn pkce_from_known_verifier() {
    let pkce = PkceParameters::from_verifier(VERIFIER.to_string());
    assert_eq!(pkce.code_verifier, VERIFIER);
    assert_eq!(pkce.code_challenge, "E9Melhoa2OwvFrEMTJguCHaoeK1t8URWbuGJSstw-cM");
}

#[test]
fn code_challenge_known_values() {
    assert_eq!(
        create_s256_code_challenge(b"abc"),
        "ungWv48Bz-pBQUDeXa4iI7ADYaOWF3qctBD_YfIAFa0"
    );
    assert_eq!(
        create_s256_code_challenge(VERIFIER.as_bytes()),
        "E9Melhoa2OwvFrEMTJguCHaoeK1t8URWbuGJSstw-cM"
    );
}

#[test]
fn client_id_is_deterministic() {
    let first = build_client_id("ABC123");
    let second = build_client_id("ABC123");
    assert_eq!(first, second);
    assert_eq!(first, "414243313233234132435a4a5a474c4b324a4a564d");
    assert_eq!(audible_api::login::build_client_id("ABC123"), first);
}

#[test]
fn client_id_of_empty_serial_is_the_suffix() {
    assert_eq!(build_client_id(""), "234132435a4a5a474c4b324a4a564d");
}

#[test]
fn client_id_encodes_utf8_bytes() {
    assert_eq!(build_client_id("é"), "c3a9234132435a4a5a474c4b324a4a564d");
}

#[test]
fn device_serial_is_32_upper_hex() {
    for _ in 0..20 {
        let serial = build_device_serial();
        assert_eq!(serial.len(), 32);
        assert!(serial.chars().all(|c| c.is_ascii_digit() || ('A'..='F').contains(&c)));
    }
}

#[test]
fn serial_from_uuid_strips_hyphens_and_uppercases() {
    assert_eq!(
        serial_from_uuid("123e4567-e89b-42d3-a456-426614174000"),
        "123E4567E89B42D3A456426614174000"
    );
    assert_eq!(serial_from_uuid(""), "");
    assert_eq!(serial_from_uuid("--"), "");
    assert_eq!(serial_from_uuid("a-Z_9"), "AZ_9");
}

#[test]
fn username_flow_is_refused_on_fr() {
    let err = build_oauth_url("fr", "fr", "A2728XDNODOQ8T", None, true).unwrap_err();
    assert_eq!(err.kind, ErrorKind::UnsupportedDomainForUsernameFlow);
    assert_eq!(err.message, "Username is not supported for this domain");
}

#[test]
fn username_flow_on_de_uses_audible_host() {
    let (url, verifier, serial) =
        build_oauth_url("de", "de", "AN7V1F1VY261K", None, true).unwrap();
    assert!(url.starts_with("https://www.audible.de/ap/signin?"));
    assert!(!url.contains("amazon.de"));
    assert!(url.contains("openid.return_to=https%3A%2F%2Fwww.audible.de%2Fap%2Fmaplanding"));
    assert!(url.contains("pageId=amzn_audible_ios_privatepool"));
    assert!(url.contains("openid.assoc_handle=amzn_audible_ios_lap_de"));
    assert_eq!(verifier.len(), 43);
    assert_eq!(serial.len(), 32);
}

#[test]
fn anonymous_flow_is_allowed_on_fr() {
    let (url, _, _) = build_oauth_url("fr", "fr", "A2728XDNODOQ8T", None, false).unwrap();
    assert!(url.starts_with("https://www.amazon.fr/ap/signin?"));
}

#[test]
fn username_domains() {
    assert!(is_username_domain("de"));
    assert!(is_username_domain("com"));
    assert!(is_username_domain("co.uk"));
    assert!(!is_username_domain("fr"));
    assert!(!is_username_domain("DE"));
    assert!(!is_username_domain(""));
    assert!(username_flow_supported("DE"));
    assert!(username_flow_supported("Co.Uk"));
    assert!(username_flow_supported("com"));
    assert!(!username_flow_supported("com.au"));
    assert!(!username_flow_supported("FR"));
    assert!(!username_flow_supported(""));
    assert!(username_flow_supported("COM"));
    assert!(build_oauth_url("de", "DE", "M", None, true).is_ok());
    assert!(build_oauth_url("fr", "Fr", "M", None, true).is_err());
}

#[test]
fn supplied_serial_is_reused() {
    let (url, _, serial) =
        build_oauth_url("us", "com", "AF2M0KC94RCEA", Some("ABC123".to_string()), false).unwrap();
    assert_eq!(serial, "ABC123");
    assert!(url.contains(
        "openid.oa2.client_id=device%3A414243313233234132435a4a5a474c4b324a4a564d"
    ));
}

#[test]
fn built_url_is_the_url_of_its_verifier_and_serial() {
    let (url, verifier, serial) =
        build_oauth_url("uk", "co.uk", "A2I9A3Q2GNFNGQ", None, true).unwrap();
    assert_eq!(url, oauth_url("uk", "co.uk", "A2I9A3Q2GNFNGQ", &serial, &verifier, true));
}

#[test]
fn oauth_url_exact_anonymous() {
    let url = oauth_url("us", "com", "AF2M0KC94RCEA", "ABC123", VERIFIER, false);
    assert_eq!(url, "https://www.amazon.com/ap/signin?openid.oa2.response_type=code&openid.oa2.code_challenge_method=S256&openid.oa2.code_challenge=E9Melhoa2OwvFrEMTJguCHaoeK1t8URWbuGJSstw-cM&openid.return_to=https%3A%2F%2Fwww.amazon.com%2Fap%2Fmaplanding&openid.assoc_handle=amzn_audible_ios_us&openid.identity=http%3A%2F%2Fspecs.openid.net%2Fauth%2F2.0%2Fidentifier_select&pageId=amzn_audible_ios&accountStatusPolicy=P1&openid.claimed_id=http%3A%2F%2Fspecs.openid.net%2Fauth%2F2.0%2Fidentifier_select&openid.mode=checkid_setup&openid.ns.oa2=http%3A%2F%2Fwww.amazon.com%2Fap%2Fext%2Foauth%2F2&openid.oa2.client_id=device%3A414243313233234132435a4a5a474c4b324a4a564d&openid.ns.pape=http%3A%2F%2Fspecs.openid.net%2Fextensions%2Fpape%2F1.0&marketPlaceId=AF2M0KC94RCEA&openid.oa2.scope=device_auth_access&forceMobileLayout=true&openid.ns=http%3A%2F%2Fspecs.openid.net%2Fauth%2F2.0&openid.pape.max_auth_age=0");
}

#[test]
fn oauth_url_exact_username() {
    let url = oauth_url(
        "de",
        "de",
        "AN7V1F1VY261K",
        "0123456789ABCDEF0123456789ABCDEF",
        VERIFIER,
        true,
    );
    assert_eq!(url, "https://www.audible.de/ap/signin?openid.oa2.response_type=code&openid.oa2.code_challenge_method=S256&openid.oa2.code_challenge=E9Melhoa2OwvFrEMTJguCHaoeK1t8URWbuGJSstw-cM&openid.return_to=https%3A%2F%2Fwww.audible.de%2Fap%2Fmaplanding&openid.assoc_handle=amzn_audible_ios_lap_de&openid.identity=http%3A%2F%2Fspecs.openid.net%2Fauth%2F2.0%2Fidentifier_select&pageId=amzn_audible_ios_privatepool&accountStatusPolicy=P1&openid.claimed_id=http%3A%2F%2Fspecs.openid.net%2Fauth%2F2.0%2Fidentifier_select&openid.mode=checkid_setup&openid.ns.oa2=http%3A%2F%2Fwww.amazon.com%2Fap%2Fext%2Foauth%2F2&openid.oa2.client_id=device%3A3031323334353637383941424344454630313233343536373839414243444546234132435a4a5a474c4b324a4a564d&openid.ns.pape=http%3A%2F%2Fspecs.openid.net%2Fextensions%2Fpape%2F1.0&marketPlaceId=AN7V1F1VY261K&openid.oa2.scope=device_auth_access&forceMobileLayout=true&openid.ns=http%3A%2F%2Fspecs.openid.net%2Fauth%2F2.0&openid.pape.max_auth_age=0");
}

#[test]
fn oauth_url_form_encodes_special_characters() {
    let url = oauth_url("us", "com", "a b*c~d&e=f+g/é", "S", VERIFIER, false);
    assert!(url.contains("&marketPlaceId=a+b*c%7Ed%26e%3Df%2Bg%2F%C3%A9&"));
}

#[test]
fn extracts_authorization_code() {
    let code = extract_auth_code(
        "https://www.amazon.com/ap/maplanding?openid.oa2.authorization_code=XYZ&other=1",
    )
    .unwrap();
    assert_eq!(code, "XYZ");
}

#[test]
fn extraction_fails_without_code() {
    let err = extract_auth_code("https://www.amazon.com/ap/maplanding?other=1").unwrap_err();
    assert_eq!(err.kind, ErrorKind::AuthorizationCodeMissing);
    assert_eq!(err.message, "Authorization code not found in response URL");
    let err = extract_auth_code("https://www.amazon.com/ap/maplanding").unwrap_err();
    assert_eq!(err.kind, ErrorKind::AuthorizationCodeMissing);
}

#[test]
fn extraction_fails_on_text_that_is_no_url() {
    let err = extract_auth_code("openid.oa2.authorization_code=XYZ").unwrap_err();
    assert_eq!(err.kind, ErrorKind::AuthorizationCodeMissing);
    assert_eq!(err.message, "Response URL is not a valid URL");
    let err = extract_auth_code("").unwrap_err();
    assert_eq!(err.kind, ErrorKind::AuthorizationCodeMissing);
}

#[test]
fn extraction_decodes_and_takes_the_last_occurrence() {
    let code = extract_auth_code(
        "https://h/p?openid.oa2.authorization_code=first&openid.oa2.authorization_code=a%2Fb+c",
    )
    .unwrap();
    assert_eq!(code, "a/b c");
    let code = extract_auth_code("https://h/p?openid.oa2.authorization_code=").unwrap();
    assert_eq!(code, "");
}

#[test]
fn last_value_of_pairs() {
    let pairs = vec![
        ("a".to_string(), "1".to_string()),
        ("b".to_string(), "2".to_string()),
        ("a".to_string(), "3".to_string()),
    ];
    assert_eq!(last_value_of(&pairs, "a"), Some("3".to_string()));
    assert_eq!(last_value_of(&pairs, "b"), Some("2".to_string()));
    assert_eq!(last_value_of(&pairs, "c"), None);
    assert_eq!(last_value_of(&Vec::new(), "a"), None);
}

#[test]
fn auth_code_from_given_pairs() {
    let pairs = vec![("openid.oa2.authorization_code".to_string(), "XYZ".to_string())];
    assert_eq!(auth_code_from_pairs(Some(pairs)).unwrap(), "XYZ");
    let err = auth_code_from_pairs(Some(Vec::new())).unwrap_err();
    assert_eq!(err.message, "Authorization code not found in response URL");
    let err = auth_code_from_pairs(None).unwrap_err();
    assert_eq!(err.message, "Response URL is not a valid URL");
}
