//! The interactive login on its own: from the authorization URL to the
//! authorization grant, without the registration that follows.

use vstd::prelude::*;
use vstd::string::*;
use vstd::utf8::*;
use crate::auth::oauth::{
    auth_code_result, is_code_verifier, is_device_serial, oauth_url_text,
    unsupported_domain_error, url_query_pairs, username_flow_allowed,
};
use crate::auth::sign_in::pasted_auth_code;
use crate::error::{AppError, AppErrorView};
use crate::text::{ascii_lowercase, trimmed, unicode_lowercase};

pub use crate::auth::oauth::{build_client_id, build_oauth_url, create_code_verifier};

verus! {

/// An authorization grant: the authorization code with what is needed
/// to register the device it was issued to.
#[derive(Clone, Debug)]
pub struct Auth {
    pub authorization_code: String,
    pub code_verifier: String,
    pub domain: String,
    pub device_serial: String,
}

/// The mathematical value of a grant.
pub struct GrantView {
    pub authorization_code: Seq<char>,
    pub code_verifier: Seq<char>,
    pub domain: Seq<char>,
    pub device_serial: Seq<char>,
}

impl View for Auth {
    type V = GrantView;

    open spec fn view(&self) -> GrantView {
        GrantView {
            authorization_code: self.authorization_code@,
            code_verifier: self.code_verifier@,
            domain: self.domain@,
            device_serial: self.device_serial@,
        }
    }
}

/// A login that waits for the user to come back from the browser.
#[derive(Clone, Debug)]
pub struct PendingLogin {
    pub oauth_url: String,
    pub code_verifier: String,
    pub domain: String,
    pub device_serial: String,
}

/// The view of a result that holds a grant or an error.
pub open spec fn grant_view(r: Result<Auth, AppError>) -> Result<GrantView, AppErrorView> {
    match r {
        Ok(grant) => Ok(grant@),
        Err(e) => Err(e@),
    }
}

/// The grant, or the error, that a pasted redirect text leads to.
pub open spec fn grant_result(
    pasted: Seq<char>,
    code_verifier: Seq<char>,
    domain: Seq<char>,
    device_serial: Seq<char>,
) -> Result<GrantView, AppErrorView> {
    match auth_code_result(url_query_pairs(trimmed(pasted))) {
        Ok(code) => Ok(
            GrantView { authorization_code: code, code_verifier, domain, device_serial },
        ),
        Err(e) => Err(e),
    }
}

/// Begins a login: builds the authorization URL that the user is to
/// open, for the given device serial or a fresh one.
///
/// Fails with `UnsupportedDomainForUsernameFlow` when the username flow
/// is asked for on a domain that has none.
pub fn begin_external_login(
    country_code: &str,
    domain: String,
    market_place_id: &str,
    device_serial: Option<String>,
    with_username: bool,
) -> (pending: Result<PendingLogin, AppError>)
    ensures
        pending is Err <==> with_username && !username_flow_allowed(unicode_lowercase(domain@)),
        is_ascii_chars(domain@) ==> (pending is Err <==> with_username && !username_flow_allowed(
            ascii_lowercase(domain@),
        )),
        pending matches Err(e) ==> e@ == unsupported_domain_error(),
        pending matches Ok(p) ==> {
            &&& p.domain@ == domain@
            &&& is_code_verifier(p.code_verifier@)
            &&& match device_serial {
                Some(given) => p.device_serial@ == given@,
                None => is_device_serial(p.device_serial@),
            }
            &&& p.oauth_url@ == oauth_url_text(
                country_code@,
                domain@,
                market_place_id@,
                p.device_serial@,
                p.code_verifier@,
                with_username,
            )
        },
{
    match build_oauth_url(country_code, domain.as_str(), market_place_id, device_serial, with_username) {
        Ok((oauth_url, code_verifier, device_serial)) => Ok(
            PendingLogin { oauth_url, code_verifier, domain, device_serial },
        ),
        Err(e) => Err(e),
    }
}

/// Ends a login with the text that the user pasted: the redirect URL,
/// which must carry the authorization code.
///
/// Fails with `AuthorizationCodeMissing` when it carries none.
pub fn finish_external_login(pending: PendingLogin, pasted: &str) -> (grant: Result<
    Auth,
    AppError,
>)
    ensures
        grant_view(grant) == grant_result(
            pasted@,
            pending.code_verifier@,
            pending.domain@,
            pending.device_serial@,
        ),
{
    match pasted_auth_code(pasted) {
        Ok(authorization_code) => Ok(
            Auth {
                authorization_code,
                code_verifier: pending.code_verifier,
                domain: pending.domain,
                device_serial: pending.device_serial,
            },
        ),
        Err(e) => Err(e),
    }
}

} // verus!
