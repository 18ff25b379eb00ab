//! Signing in: authorization URL, device registration, request signing
//! and the stored session.

use vstd::prelude::*;
use vstd::string::*;
use vstd::utf8::*;
use crate::auth::auth_headers::{auth_headers, headers_view, is_signing_timestamp, request_headers};
use crate::auth::register::{Registration, RegistrationView};
use crate::error::AppError;
use crate::localization::{Locale, LocaleView};

pub mod auth_headers;
pub mod oauth;
pub mod register;
pub mod router;
pub mod session;
pub mod sign_in;

verus! {

/// A session: the marketplace, the registered device, and the
/// authorization code and code verifier the registration was made with.
#[derive(Debug)]
pub struct Auth {
    pub locale: Locale,
    pub device_registration: Registration,
    pub authorization_code: String,
    pub code_verifier: String,
}

/// The mathematical value of an [`Auth`].
pub struct AuthView {
    pub locale: LocaleView,
    pub device_registration: RegistrationView,
    pub authorization_code: Seq<char>,
    pub code_verifier: Seq<char>,
}

impl View for Auth {
    type V = AuthView;

    open spec fn view(&self) -> AuthView {
        AuthView {
            locale: self.locale@,
            device_registration: self.device_registration@,
            authorization_code: self.authorization_code@,
            code_verifier: self.code_verifier@,
        }
    }
}

impl Auth {
    /// The session that a grant and the registration made with it come
    /// to.
    pub fn from_external_login(
        locale: Locale,
        grant: crate::login::Auth,
        device_registration: Registration,
    ) -> (session: Auth)
        ensures
            session.locale == locale,
            session.device_registration == device_registration,
            session.authorization_code == grant.authorization_code,
            session.code_verifier == grant.code_verifier,
    {
        Auth {
            locale,
            device_registration,
            authorization_code: grant.authorization_code,
            code_verifier: grant.code_verifier,
        }
    }

    /// The signing headers for a request made now with this session's
    /// ADP token and private key: those of `auth_headers_at` for some
    /// signing timestamp.
    pub fn sign_request(&self, method: &str, path: &str, body: &[u8]) -> (headers: Result<
        Vec<(String, String)>,
        AppError,
    >)
        requires
            valid_utf8(body@),
        ensures
            exists|date: Seq<char>|
                is_signing_timestamp(date) && headers_view(headers) == #[trigger] request_headers(
                    method@,
                    path@,
                    body@,
                    self.device_registration.adp_token@,
                    self.device_registration.device_private_key@,
                    date,
                ),
    {
        auth_headers(
            method,
            path,
            body,
            self.device_registration.adp_token.as_str(),
            self.device_registration.device_private_key.as_str(),
        )
    }
}

} // verus!
