//! The interactive sign-in, as a state machine.
//!
//! The caller opens the browser, reads the terminal and talks to the
//! registration endpoint; after each of these it reports an event, and
//! [`step`] answers with the next state and with what to do next.

use vstd::prelude::*;
use vstd::string::*;
use crate::auth::oauth::{
    auth_code_result, build_oauth_url, extract_auth_code, is_code_verifier, is_device_serial,
    oauth_url_text, text_result_view, url_query_pairs,
};
use crate::auth::register::{
    register_body, register_url_text, registration_from_reply, registration_request,
    registration_result, RegistrationReply, RegistrationRequest,
};
use crate::auth::router::locale_not_found_error;
use crate::auth::{Auth, AuthView};
use crate::error::{AppError, ErrorKind};
use crate::localization::{by_country_code, find_by_country_code, locale_table, Locale};
use crate::system::now_timestamp;
use crate::text::{trim, trimmed};

verus! {

/// A sign-in that waits for the user to log in.
#[derive(Debug)]
pub struct PendingSignIn {
    pub locale: Locale,
    pub oauth_url: String,
    pub code_verifier: String,
    pub device_serial: String,
    pub with_username: bool,
}

/// A sign-in whose authorization code has arrived.
#[derive(Debug)]
pub struct CapturedSignIn {
    pub locale: Locale,
    pub authorization_code: String,
    pub code_verifier: String,
    pub device_serial: String,
    pub with_username: bool,
}

/// Where a sign-in stands.
#[derive(Debug)]
pub enum SignInState {
    Idle,
    AwaitingUserLogin(PendingSignIn),
    CaptureReceived(CapturedSignIn),
    Completed,
    Failed,
    Cancelled,
}

/// What happened outside.
#[derive(Debug)]
pub enum SignInEvent {
    /// The caller asks to sign in.
    Start { country_code: String, device_serial: Option<String>, with_username: bool },
    /// The authorization code was obtained directly.
    CodeObtained(String),
    /// The user pasted the URL that the browser was redirected to.
    RedirectPasted(String),
    /// The authorization code could not be obtained.
    AcquisitionFailed(AppError),
    /// The registration endpoint replied.
    Registered(RegistrationReply),
    /// The caller gives up.
    Cancel,
}

/// What the caller is to do next.
#[derive(Debug)]
pub enum SignInAction {
    /// Show this URL to the user and wait for the authorization code.
    OpenAuthorizationUrl(String),
    /// Send this request to the registration endpoint.
    Register(RegistrationRequest),
    /// The sign-in is complete; this is the session.
    Finish(Auth),
    /// The sign-in failed with this error.
    Fail(AppError),
    /// Nothing.
    Nothing,
}

/// Whether `state` is one that a sign-in never leaves.
pub open spec fn is_final(state: SignInState) -> bool {
    state is Completed || state is Failed || state is Cancelled
}

/// Whether `captured` and `action` are what follows `pending` once the
/// authorization code `code` is known.
pub open spec fn code_step(
    pending: PendingSignIn,
    code: Seq<char>,
    post: SignInState,
    action: SignInAction,
) -> bool {
    &&& post matches SignInState::CaptureReceived(c)
    &&& c.locale == pending.locale
    &&& c.authorization_code@ == code
    &&& c.code_verifier == pending.code_verifier
    &&& c.device_serial == pending.device_serial
    &&& c.with_username == pending.with_username
    &&& action matches SignInAction::Register(request)
    &&& request.url@ == register_url_text(pending.locale.domain@, pending.with_username)
    &&& request.body@ == register_body(
        code,
        pending.code_verifier@,
        pending.locale.domain@,
        pending.device_serial@,
    )
}

/// Whether `post` and `action` are what a failure with the error `e`
/// leads to.
pub open spec fn failed_step(e: crate::error::AppErrorView, post: SignInState, action: SignInAction) -> bool {
    &&& post is Failed
    &&& action matches SignInAction::Fail(got)
    &&& got@ == e
}

/// The transition relation of a sign-in: whether, at time `now`, the
/// event `event` takes the state `pre` to `post` with the action
/// `action`.
///
/// - `Idle`, on `Start`: an unknown country code fails; otherwise the
///   sign-in awaits the user's login on a fresh authorization URL.
/// - `AwaitingUserLogin`, on an authorization code or a pasted redirect
///   URL that carries one: the capture is received and the device is to
///   be registered. A redirect URL without code, or a failure to obtain
///   one, fails.
/// - `CaptureReceived`, on the endpoint's reply: a registration
///   completes the sign-in with a session; anything else fails.
/// - `Cancel` cancels a sign-in that is not over.
/// - Every other event leaves the state as it is.
pub open spec fn sign_in_step(
    pre: SignInState,
    event: SignInEvent,
    now: int,
    post: SignInState,
    action: SignInAction,
) -> bool {
    match (pre, event) {
        (SignInState::Idle, SignInEvent::Start { country_code, device_serial, with_username }) => {
            match by_country_code(locale_table(), country_code@, 0) {
                None => failed_step(locale_not_found_error(), post, action),
                Some(locale) => {
                    &&& post matches SignInState::AwaitingUserLogin(p)
                    &&& p.locale@ == locale
                    &&& p.with_username == with_username
                    &&& is_code_verifier(p.code_verifier@)
                    &&& match device_serial {
                        Some(given) => p.device_serial@ == given@,
                        None => is_device_serial(p.device_serial@),
                    }
                    &&& p.oauth_url@ == oauth_url_text(
                        locale.country_code,
                        locale.domain,
                        locale.market_place_id,
                        p.device_serial@,
                        p.code_verifier@,
                        false,
                    )
                    &&& action matches SignInAction::OpenAuthorizationUrl(url)
                    &&& url@ == p.oauth_url@
                },
            }
        },
        (SignInState::AwaitingUserLogin(pending), SignInEvent::CodeObtained(code)) => code_step(
            pending,
            code@,
            post,
            action,
        ),
        (SignInState::AwaitingUserLogin(pending), SignInEvent::RedirectPasted(text)) => {
            match auth_code_result(url_query_pairs(trimmed(text@))) {
                Ok(code) => code_step(pending, code, post, action),
                Err(e) => failed_step(e, post, action),
            }
        },
        (SignInState::AwaitingUserLogin(_), SignInEvent::AcquisitionFailed(e)) => failed_step(
            e@,
            post,
            action,
        ),
        (SignInState::CaptureReceived(captured), SignInEvent::Registered(reply)) => {
            match registration_result(reply@, captured.device_serial@, now) {
                Ok(registration) => {
                    &&& post is Completed
                    &&& action matches SignInAction::Finish(auth)
                    &&& auth@ == AuthView {
                        locale: captured.locale@,
                        device_registration: registration,
                        authorization_code: captured.authorization_code@,
                        code_verifier: captured.code_verifier@,
                    }
                },
                Err(e) => failed_step(e, post, action),
            }
        },
        (pre, SignInEvent::Cancel) => {
            &&& action is Nothing
            &&& if is_final(pre) {
                post == pre
            } else {
                post is Cancelled
            }
        },
        (pre, _) => post == pre && action is Nothing,
    }
}

fn receive_code(pending: PendingSignIn, code: String) -> (next: (SignInState, SignInAction))
    ensures
        code_step(pending, code@, next.0, next.1),
{
    let request = registration_request(
        code.as_str(),
        pending.code_verifier.as_str(),
        pending.locale.domain.as_str(),
        pending.device_serial.as_str(),
        pending.with_username,
    );
    let captured = CapturedSignIn {
        locale: pending.locale,
        authorization_code: code,
        code_verifier: pending.code_verifier,
        device_serial: pending.device_serial,
        with_username: pending.with_username,
    };
    (SignInState::CaptureReceived(captured), SignInAction::Register(request))
}

/// The authorization code in the text that a user pasted: the text is
/// trimmed and read as the redirect URL.
pub fn pasted_auth_code(pasted: &str) -> (code: Result<String, AppError>)
    ensures
        text_result_view(code) == auth_code_result(url_query_pairs(trimmed(pasted@))),
{
    extract_auth_code(trim(pasted))
}

/// One step of a sign-in at time `now`.
pub fn step_at(state: SignInState, event: SignInEvent, now: i64) -> (next: (
    SignInState,
    SignInAction,
))
    ensures
        sign_in_step(state, event, now as int, next.0, next.1),
{
    match (state, event) {
        (SignInState::Idle, SignInEvent::Start { country_code, device_serial, with_username }) => {
            let locale = match find_by_country_code(country_code.as_str()) {
                Some(locale) => locale,
                None => {
                    return (
                        SignInState::Failed,
                        SignInAction::Fail(
                            AppError::new(ErrorKind::LocaleNotFound, "Country code not found"),
                        ),
                    );
                },
            };
            let built = build_oauth_url(
                locale.country_code.as_str(),
                locale.domain.as_str(),
                locale.market_place_id.as_str(),
                device_serial,
                false,
            );
            match built {
                Ok((oauth_url, code_verifier, device_serial)) => {
                    let shown = oauth_url.clone();
                    (
                        SignInState::AwaitingUserLogin(
                            PendingSignIn {
                                locale,
                                oauth_url,
                                code_verifier,
                                device_serial,
                                with_username,
                            },
                        ),
                        SignInAction::OpenAuthorizationUrl(shown),
                    )
                },
                Err(e) => (SignInState::Failed, SignInAction::Fail(e)),
            }
        },
        (SignInState::AwaitingUserLogin(pending), SignInEvent::CodeObtained(code)) => receive_code(
            pending,
            code,
        ),
        (SignInState::AwaitingUserLogin(pending), SignInEvent::RedirectPasted(text)) => {
            match pasted_auth_code(text.as_str()) {
                Ok(code) => receive_code(pending, code),
                Err(e) => (SignInState::Failed, SignInAction::Fail(e)),
            }
        },
        (SignInState::AwaitingUserLogin(_), SignInEvent::AcquisitionFailed(e)) => (
            SignInState::Failed,
            SignInAction::Fail(e),
        ),
        (SignInState::CaptureReceived(captured), SignInEvent::Registered(reply)) => {
            match registration_from_reply(&reply, captured.device_serial.as_str(), now) {
                Ok(registration) => (
                    SignInState::Completed,
                    SignInAction::Finish(
                        Auth {
                            locale: captured.locale,
                            device_registration: registration,
                            authorization_code: captured.authorization_code,
                            code_verifier: captured.code_verifier,
                        },
                    ),
                ),
                Err(e) => (SignInState::Failed, SignInAction::Fail(e)),
            }
        },
        (state, SignInEvent::Cancel) => {
            match state {
                SignInState::Completed => (SignInState::Completed, SignInAction::Nothing),
                SignInState::Failed => (SignInState::Failed, SignInAction::Nothing),
                SignInState::Cancelled => (SignInState::Cancelled, SignInAction::Nothing),
                _ => (SignInState::Cancelled, SignInAction::Nothing),
            }
        },
        (state, _) => (state, SignInAction::Nothing),
    }
}

/// One step of a sign-in, now: that of `step_at` at the time the clock
/// shows.
pub fn step(state: SignInState, event: SignInEvent) -> (next: (SignInState, SignInAction))
    ensures
        exists|now: i64| #[trigger] sign_in_step(state, event, now as int, next.0, next.1),
{
    let now = now_timestamp();
    step_at(state, event, now)
}

/// What to show for a key that the user typed.
#[derive(Clone, Copy, Debug, PartialEq, Eq, Structural)]
pub enum Echo {
    /// The line is complete; nothing is shown.
    Done,
    /// Show the key.
    Key(char),
    /// Break the line, then show the key.
    BreakThenKey(char),
}

/// What a key does to the echo: a line feed ends the line, `&` and `?`
/// start a new line on the screen, any other key is shown as it is.
pub open spec fn echo_of(key: char) -> Echo {
    if key == '\n' {
        Echo::Done
    } else if key == '&' || key == '?' {
        Echo::BreakThenKey(key)
    } else {
        Echo::Key(key)
    }
}

/// What a key does to the text typed so far: a line feed leaves it as it
/// is, any other key is appended. How the key is echoed has no part in it.
pub open spec fn typed_after(typed: Seq<char>, key: char) -> Seq<char> {
    if key == '\n' {
        typed
    } else {
        typed.push(key)
    }
}

/// Takes one key of the line that the user types into `typed`, and says
/// what to echo.
pub fn capture_key(typed: &mut String, key: char) -> (echo: Echo)
    ensures
        echo == echo_of(key),
        final(typed)@ == typed_after(old(typed)@, key),
{
    if key == '\n' {
        Echo::Done
    } else {
        typed.push(key);
        if key == '&' || key == '?' {
            Echo::BreakThenKey(key)
        } else {
            Echo::Key(key)
        }
    }
}

} // verus!
