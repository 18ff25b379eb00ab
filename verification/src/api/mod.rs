//! The signing side of the API client: the host of the API, and the
//! headers that sign a request to it.
//!
//! The client that sends the request is the caller's; it asks here for
//! the headers to attach.

use vstd::prelude::*;
use vstd::string::*;
use vstd::utf8::*;
use crate::auth::auth_headers::{auth_headers, headers_view, is_signing_timestamp, request_headers};
use crate::auth::Auth;
use crate::encoding::pairs_view;
use crate::error::AppError;
use crate::text::{remove_all, without_matches};

verus! {

/// The base address of the API in a marketplace.
pub open spec fn api_url_text(domain: Seq<char>) -> Seq<char> {
    "https://api.audible."@ + domain
}

/// The headers that every request carries, by name.
pub open spec fn default_header_pairs() -> Seq<(Seq<char>, Seq<char>)> {
    seq![
        ("accept"@, "application/json"@),
        ("accept-charset"@, "utf-8"@),
        ("content-type"@, "application/json"@),
        ("connection"@, "keep-alive"@),
    ]
}

/// A session bound to the API host of its marketplace.
#[derive(Debug)]
pub struct Client {
    auth: Auth,
    base_url: String,
}

fn name_value(name: &str, value: &str) -> (h: (String, String))
    ensures
        h.0@ == name@,
        h.1@ == value@,
{
    (String::from_str(name), String::from_str(value))
}

impl Client {
    #[verifier::type_invariant]
    spec fn bound_to_marketplace(&self) -> bool {
        self.base_url@ == api_url_text(self.auth.locale.domain@)
    }

    /// The session of the client.
    pub closed spec fn session(&self) -> Auth {
        self.auth
    }

    /// The base address of the API.
    pub closed spec fn base(&self) -> Seq<char> {
        self.base_url@
    }

    /// A client for the marketplace of a session.
    pub fn new(auth: Auth) -> (client: Client)
        ensures
            client.session() == auth,
            client.base() == api_url_text(auth.locale.domain@),
    {
        let mut base_url = String::from_str("https://api.audible.");
        base_url.append(auth.locale.domain.as_str());
        Client { auth, base_url }
    }

    /// The session of the client.
    pub fn auth(&self) -> (auth: &Auth)
        ensures
            *auth == self.session(),
    {
        &self.auth
    }

    /// The base address of the API: `https://api.audible.` and the
    /// marketplace's domain.
    pub fn base_url(&self) -> (url: &str)
        ensures
            url@ == self.base(),
            url@ == api_url_text(self.session().locale.domain@),
    {
        proof {
            use_type_invariant(self);
        }
        self.base_url.as_str()
    }

    /// The address of an endpoint: the base address followed by `path`.
    pub fn endpoint_url(&self, path: &str) -> (url: String)
        ensures
            url@ == self.base() + path@,
    {
        let mut url = self.base_url.clone();
        url.append(path);
        url
    }

    /// The headers that every request carries.
    pub fn default_headers() -> (headers: Vec<(String, String)>)
        ensures
            pairs_view(headers@) == default_header_pairs(),
    {
        let mut headers: Vec<(String, String)> = Vec::new();
        headers.push(name_value("accept", "application/json"));
        headers.push(name_value("accept-charset", "utf-8"));
        headers.push(name_value("content-type", "application/json"));
        headers.push(name_value("connection", "keep-alive"));
        proof {
            assert(pairs_view(headers@) =~= default_header_pairs());
        }
        headers
    }

    /// The path that is signed for a request to `url`: the URL without
    /// the base address.
    pub fn request_path(&self, url: &str) -> (path: String)
        ensures
            path@ == without_matches(url@, self.base()),
    {
        proof {
            use_type_invariant(self);
            reveal_strlit("https://api.audible.");
        }
        remove_all(url, self.base_url.as_str())
    }

    /// The signing headers for a request to `url` made now: those of
    /// `auth_headers_at` for the session's ADP token and private key, the
    /// path of the URL, and some signing timestamp.
    pub fn signed_headers(&self, method: &str, url: &str, body: &[u8]) -> (headers: Result<
        Vec<(String, String)>,
        AppError,
    >)
        requires
            valid_utf8(body@),
        ensures
            exists|date: Seq<char>|
                is_signing_timestamp(date) && headers_view(headers) == #[trigger] request_headers(
                    method@,
                    without_matches(url@, self.base()),
                    body@,
                    self.session().device_registration.adp_token@,
                    self.session().device_registration.device_private_key@,
                    date,
                ),
    {
        let path = self.request_path(url);
        auth_headers(
            method,
            path.as_str(),
            body,
            self.auth.device_registration.adp_token.as_str(),
            self.auth.device_registration.device_private_key.as_str(),
        )
    }
}

} // verus!
