use audible_api::api::Client;
use audible_api::auth::register::RegistrationReply;
use audible_api::auth::sign_in::{
    capture_key, pasted_auth_code, step, step_at, Echo, SignInAction, SignInEvent, SignInState,
};
use audible_api::error::{AppError, ErrorKind};
use audible_api::json::Json;
use audible_api::login::{begin_external_login, finish_external_login};

fn text(s: &str) -> Json {
    Json::Text(s.to_string())
}

fn object(members: Vec<(&str, Json)>) -> Json {
    Json::Object(members.into_iter().map(|(k, v)| (k.to_string(), v)).collect())
}

fn accepted() -> RegistrationReply {
    RegistrationReply::Accepted(object(vec![(
        "response",
        object(vec![(
            "success",
            object(vec![(
                "tokens",
                object(vec![
                    (
                        "mac_dms",
                        object(vec![("adp_token", text("ADP")), ("device_private_key", text("KEY"))]),
                    ),
                    ("store_authentication_cookie", object(vec![("cookie", text("STORE"))])),
                    (
                        "bearer",
                        object(vec![
                            ("access_token", text("ACCESS")),
                            ("refresh_token", text("REFRESH")),
                            ("expires_in", text("60")),
                        ]),
                    ),
                ]),
            )]),
        )]),
    )]))
}

fn start(country_code: &str, serial: Option<&str>, with_username: bool) -> SignInEvent {
    SignInEvent::Start {
        country_code: country_code.to_string(),
        device_serial: serial.map(|s| s.to_string()),
        with_username,
    }
}

fn awaiting() -> SignInState {
    let (state, _) = step_at(SignInState::Idle, start("us", Some("ABC123"), true), 0);
    state
}

#[test]
fn start_awaits_the_login() {
    let (state, action) = step_at(SignInState::Idle, start("us", Some("ABC123"), false), 0);
    let pending = match state {
        SignInState::AwaitingUserLogin(p) => p,
        other => panic!("unexpected state {:?}", other),
    };
    assert_eq!(pending.device_serial, "ABC123");
    assert_eq!(pending.locale.country_code, "us");
    assert_eq!(pending.locale.domain, "com");
    assert_eq!(pending.code_verifier.len(), 43);
    assert!(!pending.with_username);
    match action {
        SignInAction::OpenAuthorizationUrl(url) => {
            assert_eq!(url, pending.oauth_url);
            assert!(url.starts_with("https://www.amazon.com/ap/signin?"));
        }
        other => panic!("unexpected action {:?}", other),
    }
}

#[test]
fn start_with_unknown_country_fails() {
    let (state, action) = step_at(SignInState::Idle, start("xx", None, false), 0);
    assert!(matches!(state, SignInState::Failed));
    match action {
        SignInAction::Fail(e) => {
            assert_eq!(e.kind, ErrorKind::LocaleNotFound);
            assert_eq!(e.message, "Country code not found");
        }
        other => panic!("unexpected action {:?}", other),
    }
}

#[test]
fn sign_in_runs_to_a_session() {
    let state = awaiting();
    let (state, action) = step_at(
        state,
        SignInEvent::RedirectPasted(
            "  https://www.amazon.com/ap/maplanding?openid.oa2.authorization_code=XYZ&other=1\r\n"
                .to_string(),
        ),
        0,
    );
    let verifier = match &state {
        SignInState::CaptureReceived(c) => {
            assert_eq!(c.authorization_code, "XYZ");
            assert_eq!(c.device_serial, "ABC123");
            c.code_verifier.clone()
        }
        other => panic!("unexpected state {:?}", other),
    };
    match action {
        SignInAction::Register(request) => {
            assert_eq!(request.url, "https://api.audible.com/auth/register");
            let auth_data = request.body.get("auth_data").unwrap();
            assert_eq!(auth_data.get("authorization_code").unwrap().as_str(), Some("XYZ"));
            assert_eq!(auth_data.get("code_verifier").unwrap().as_str(), Some(verifier.as_str()));
        }
        other => panic!("unexpected action {:?}", other),
    }
    let (state, action) = step_at(state, SignInEvent::Registered(accepted()), 1000);
    assert!(matches!(state, SignInState::Completed));
    match action {
        SignInAction::Finish(auth) => {
            assert_eq!(auth.locale.country_code, "us");
            assert_eq!(auth.authorization_code, "XYZ");
            assert_eq!(auth.code_verifier, verifier);
            assert_eq!(auth.device_registration.device_serial, "ABC123");
            assert_eq!(auth.device_registration.expires, 1060);
            let client = Client::new(auth);
            assert_eq!(client.base_url(), "https://api.audible.com");
        }
        other => panic!("unexpected action {:?}", other),
    }
}

#[test]
fn code_obtained_directly() {
    let (state, action) = step_at(awaiting(), SignInEvent::CodeObtained("C0DE".to_string()), 0);
    assert!(matches!(state, SignInState::CaptureReceived(_)));
    assert!(matches!(action, SignInAction::Register(_)));
}

#[test]
fn redirect_without_code_fails() {
    let (state, action) = step_at(
        awaiting(),
        SignInEvent::RedirectPasted("https://www.amazon.com/ap/maplanding".to_string()),
        0,
    );
    assert!(matches!(state, SignInState::Failed));
    match action {
        SignInAction::Fail(e) => assert_eq!(e.kind, ErrorKind::AuthorizationCodeMissing),
        other => panic!("unexpected action {:?}", other),
    }
}

#[test]
fn acquisition_failure_fails() {
    let error = AppError::new(ErrorKind::AuthorizationCodeMissing, "no browser");
    let (state, action) = step_at(awaiting(), SignInEvent::AcquisitionFailed(error), 0);
    assert!(matches!(state, SignInState::Failed));
    match action {
        SignInAction::Fail(e) => assert_eq!(e.message, "no browser"),
        other => panic!("unexpected action {:?}", other),
    }
}

#[test]
fn rejected_registration_fails() {
    let (state, _) = step_at(awaiting(), SignInEvent::CodeObtained("C".to_string()), 0);
    let (state, action) = step(
        state,
        SignInEvent::Registered(RegistrationReply::Rejected("nope".to_string())),
    );
    assert!(matches!(state, SignInState::Failed));
    match action {
        SignInAction::Fail(e) => {
            assert_eq!(e.kind, ErrorKind::RegistrationFailed);
            assert_eq!(e.message, "Failed to register: nope");
        }
        other => panic!("unexpected action {:?}", other),
    }
}

#[test]
fn cancel_ends_a_running_sign_in_only() {
    let (state, action) = step(SignInState::Idle, SignInEvent::Cancel);
    assert!(matches!(state, SignInState::Cancelled));
    assert!(matches!(action, SignInAction::Nothing));
    let (state, _) = step(awaiting(), SignInEvent::Cancel);
    assert!(matches!(state, SignInState::Cancelled));
    let (state, _) = step(SignInState::Completed, SignInEvent::Cancel);
    assert!(matches!(state, SignInState::Completed));
    let (state, _) = step(SignInState::Failed, SignInEvent::Cancel);
    assert!(matches!(state, SignInState::Failed));
}

#[test]
fn events_out_of_turn_change_nothing() {
    let (state, action) = step(SignInState::Idle, SignInEvent::CodeObtained("C".to_string()));
    assert!(matches!(state, SignInState::Idle));
    assert!(matches!(action, SignInAction::Nothing));
    let (state, action) = step(awaiting(), SignInEvent::Registered(accepted()));
    assert!(matches!(state, SignInState::AwaitingUserLogin(_)));
    assert!(matches!(action, SignInAction::Nothing));
    let (state, action) = step(SignInState::Cancelled, start("us", None, false));
    assert!(matches!(state, SignInState::Cancelled));
    assert!(matches!(action, SignInAction::Nothing));
}

#[test]
fn keys_are_echoed_and_kept() {
    let mut typed = String::new();
    assert_eq!(capture_key(&mut typed, 'h'), Echo::Key('h'));
    assert_eq!(capture_key(&mut typed, '?'), Echo::BreakThenKey('?'));
    assert_eq!(capture_key(&mut typed, 'a'), Echo::Key('a'));
    assert_eq!(capture_key(&mut typed, '&'), Echo::BreakThenKey('&'));
    assert_eq!(capture_key(&mut typed, 'b'), Echo::Key('b'));
    assert_eq!(typed, "h?a&b");
    assert_eq!(capture_key(&mut typed, '\n'), Echo::Done);
    assert_eq!(typed, "h?a&b");
}

#[test]
fn pasted_text_is_trimmed() {
    let code =
        pasted_auth_code(" \thttps://h/p?x=1&openid.oa2.authorization_code=XYZ \n").unwrap();
    assert_eq!(code, "XYZ");
    let err = pasted_auth_code("   ").unwrap_err();
    assert_eq!(err.kind, ErrorKind::AuthorizationCodeMissing);
    let url = "https://h/p?openid.oa2.authorization_code=XYZ";
    for space in [
        "\u{9}", "\u{a}", "\u{b}", "\u{c}", "\u{d}", " ", "\u{85}", "\u{a0}", "\u{1680}",
        "\u{2000}", "\u{2005}", "\u{200a}", "\u{2028}", "\u{2029}", "\u{202f}", "\u{205f}",
        "\u{3000}",
    ] {
        let pasted = format!("{}{}{}{}", space, url, space, space);
        assert_eq!(pasted_auth_code(&pasted).unwrap(), "XYZ");
    }
    for other in ["\u{200b}", "\u{180e}", "\u{feff}"] {
        let pasted = format!("{}{}", other, url);
        assert!(pasted_auth_code(&pasted).is_err());
        assert_eq!(pasted.trim(), pasted);
    }
}

#[test]
fn external_login_yields_a_grant() {
    let pending =
        begin_external_login("uk", "co.uk".to_string(), "A2I9A3Q2GNFNGQ", None, true).unwrap();
    assert!(pending.oauth_url.starts_with("https://www.audible.co.uk/ap/signin?"));
    assert_eq!(pending.domain, "co.uk");
    let verifier = pending.code_verifier.clone();
    let serial = pending.device_serial.clone();
    let grant = finish_external_login(
        pending,
        "https://www.audible.co.uk/ap/maplanding?openid.oa2.authorization_code=G1\n",
    )
    .unwrap();
    assert_eq!(grant.authorization_code, "G1");
    assert_eq!(grant.code_verifier, verifier);
    assert_eq!(grant.device_serial, serial);
    assert_eq!(grant.domain, "co.uk");
}

#[test]
fn external_login_errors() {
    let err = begin_external_login("fr", "fr".to_string(), "M", None, true).unwrap_err();
    assert_eq!(err.kind, ErrorKind::UnsupportedDomainForUsernameFlow);
    let pending =
        begin_external_login("fr", "fr".to_string(), "M", Some("S".to_string()), false).unwrap();
    assert_eq!(pending.device_serial, "S");
    let err = finish_external_login(pending, "https://www.amazon.fr/ap/maplanding").unwrap_err();
    assert_eq!(err.kind, ErrorKind::AuthorizationCodeMissing);
}
