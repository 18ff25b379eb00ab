//! PKCE parameters, device identity and the authorization URL.

use vstd::prelude::*;
use vstd::slice::slice_to_vec;
use vstd::string::*;
use vstd::utf8::*;
use crate::crypto::{sha256, sha256_digest};
use crate::encoding::{
    base64_text, base64_url_encode, form_query, form_urlencode, hex_encode, hex_text,
    is_base64_symbol, lemma_base64_unpadded_alphabet, lemma_base64_unpadded_len, pairs_view,
};
use crate::error::{error_view, AppError, ErrorKind};
use crate::system::{
    is_hyphenated_uuid, is_lower_hex, is_upper_hex, is_uuid_hyphen_index, random_seed,
    random_uuid,
};
use crate::text::{ascii_lowercase, chars_of, text_eq, to_lowercase, unicode_lowercase};

verus! {

/// The query parameter of the redirect URL that carries the authorization
/// code.
pub open spec fn authorization_code_key() -> Seq<char> {
    "openid.oa2.authorization_code"@
}

/// The client id of a device: the hexadecimal text of its serial followed
/// by `#` and the application's device type.
pub open spec fn client_id_text(serial: Seq<char>) -> Seq<char> {
    hex_text(encode_utf8(serial) + encode_utf8("#A2CZJZGLK2JJVM"@))
}

/// The S256 code challenge of a verifier given by its bytes.
pub open spec fn code_challenge_text(verifier: Seq<u8>) -> Seq<char> {
    base64_text(true, false, sha256_digest(verifier))
}

/// Whether `s` is a code verifier: the unpadded URL-safe Base64 text of
/// 32 bytes.
pub open spec fn is_code_verifier(s: Seq<char>) -> bool {
    exists|seed: Seq<u8>| seed.len() == 32 && s == #[trigger] base64_text(true, false, seed)
}

/// Whether `s` is a device serial as this crate generates them: 32
/// upper-case hexadecimal digits.
pub open spec fn is_device_serial(s: Seq<char>) -> bool {
    s.len() == 32 && forall|i: int| 0 <= i < 32 ==> is_upper_hex(#[trigger] s[i])
}

/// The upper-case form of an ASCII letter; any other character is kept.
pub open spec fn ascii_upper(c: char) -> char {
    if 'a' <= c <= 'z' {
        ((c as u8 - 32) as u8) as char
    } else {
        c
    }
}

/// `s` without its hyphens, ASCII letters in upper case.
pub open spec fn dashless_upper(s: Seq<char>) -> Seq<char>
    decreases s.len(),
{
    if s.len() == 0 {
        Seq::empty()
    } else if s.last() == '-' {
        dashless_upper(s.drop_last())
    } else {
        dashless_upper(s.drop_last()).push(ascii_upper(s.last()))
    }
}

/// Whether the username flow exists on a domain, given in lower case.
pub open spec fn username_flow_allowed(lowered_domain: Seq<char>) -> bool {
    lowered_domain == "de"@ || lowered_domain == "com"@ || lowered_domain == "co.uk"@
}

/// The host family that serves the sign-in page.
pub open spec fn sign_in_site(with_username: bool) -> Seq<char> {
    if with_username {
        "audible"@
    } else {
        "amazon"@
    }
}

/// The sign-in page the authorization URL points to.
pub open spec fn sign_in_url_text(domain: Seq<char>, with_username: bool) -> Seq<char> {
    "https://www."@ + sign_in_site(with_username) + "."@ + domain + "/ap/signin"@
}

/// The page the vendor redirects to after the login.
pub open spec fn return_to_text(domain: Seq<char>, with_username: bool) -> Seq<char> {
    "https://www."@ + sign_in_site(with_username) + "."@ + domain + "/ap/maplanding"@
}

/// The association handle of a marketplace.
pub open spec fn assoc_handle_text(country_code: Seq<char>, with_username: bool) -> Seq<char> {
    if with_username {
        "amzn_audible_ios_lap_"@ + country_code
    } else {
        "amzn_audible_ios_"@ + country_code
    }
}

/// The page identifier of the flow.
pub open spec fn page_id_text(with_username: bool) -> Seq<char> {
    if with_username {
        "amzn_audible_ios_privatepool"@
    } else {
        "amzn_audible_ios"@
    }
}

/// The query parameters of the authorization URL, in order.
pub open spec fn oauth_params(
    country_code: Seq<char>,
    domain: Seq<char>,
    market_place_id: Seq<char>,
    client_id: Seq<char>,
    code_challenge: Seq<char>,
    with_username: bool,
) -> Seq<(Seq<char>, Seq<char>)> {
    seq![
        ("openid.oa2.response_type"@, "code"@),
        ("openid.oa2.code_challenge_method"@, "S256"@),
        ("openid.oa2.code_challenge"@, code_challenge),
        ("openid.return_to"@, return_to_text(domain, with_username)),
        ("openid.assoc_handle"@, assoc_handle_text(country_code, with_username)),
        ("openid.identity"@, "http://specs.openid.net/auth/2.0/identifier_select"@),
        ("pageId"@, page_id_text(with_username)),
        ("accountStatusPolicy"@, "P1"@),
        ("openid.claimed_id"@, "http://specs.openid.net/auth/2.0/identifier_select"@),
        ("openid.mode"@, "checkid_setup"@),
        ("openid.ns.oa2"@, "http://www.amazon.com/ap/ext/oauth/2"@),
        ("openid.oa2.client_id"@, "device:"@ + client_id),
        ("openid.ns.pape"@, "http://specs.openid.net/extensions/pape/1.0"@),
        ("marketPlaceId"@, market_place_id),
        ("openid.oa2.scope"@, "device_auth_access"@),
        ("forceMobileLayout"@, "true"@),
        ("openid.ns"@, "http://specs.openid.net/auth/2.0"@),
        ("openid.pape.max_auth_age"@, "0"@),
    ]
}

/// The authorization URL for a device serial and a code verifier: the
/// sign-in page, `?`, and the form-encoded parameters.
pub open spec fn oauth_url_text(
    country_code: Seq<char>,
    domain: Seq<char>,
    market_place_id: Seq<char>,
    serial: Seq<char>,
    code_verifier: Seq<char>,
    with_username: bool,
) -> Seq<char> {
    sign_in_url_text(domain, with_username) + "?"@ + form_query(
        oauth_params(
            country_code,
            domain,
            market_place_id,
            client_id_text(serial),
            code_challenge_text(encode_utf8(code_verifier)),
            with_username,
        ),
    )
}

/// The value of the last pair of `pairs` whose name is `key`.
pub open spec fn last_value(pairs: Seq<(Seq<char>, Seq<char>)>, key: Seq<char>) -> Option<
    Seq<char>,
>
    decreases pairs.len(),
{
    if pairs.len() == 0 {
        None
    } else if pairs.last().0 == key {
        Some(pairs.last().1)
    } else {
        last_value(pairs.drop_last(), key)
    }
}

/// The query pairs of a URL, or `None` where the text is no absolute URL,
/// as the `url` crate parses and percent-decodes them.
pub uninterp spec fn url_query_pairs(url: Seq<char>) -> Option<Seq<(Seq<char>, Seq<char>)>>;

/// `Url::parse` followed by `Url::query_pairs`, both of the `url` crate:
/// the decoded name/value pairs of the URL's query in order, or `None`
/// when the text does not parse as a URL.
#[verifier::external_body]
pub(crate) fn parse_query_pairs(url: &str) -> (pairs: Option<Vec<(String, String)>>)
    ensures
        match pairs {
            Some(p) => url_query_pairs(url@) == Some(pairs_view(p@)),
            None => url_query_pairs(url@) is None,
        },
{
    match url::Url::parse(url) {
        Ok(parsed) => Some(parsed.query_pairs().into_owned().collect()),
        Err(_) => None,
    }
}

/// A code verifier and the code challenge derived from it.
#[derive(Clone, Debug)]
pub struct PkceParameters {
    pub code_verifier: String,
    pub code_challenge: String,
}

impl PkceParameters {
    /// Whether the challenge is the S256 challenge of the verifier.
    pub open spec fn well_formed(&self) -> bool {
        self.code_challenge@ == code_challenge_text(encode_utf8(self.code_verifier@))
    }

    /// The parameters for a given verifier.
    pub fn from_verifier(code_verifier: String) -> (p: PkceParameters)
        ensures
            p.code_verifier@ == code_verifier@,
            p.well_formed(),
    {
        let code_challenge = create_s256_code_challenge(code_verifier.as_str().as_bytes());
        PkceParameters { code_verifier, code_challenge }
    }

    /// Fresh parameters: a verifier of 43 URL-safe Base64 symbols that
    /// encodes 32 random bytes, and its S256 challenge.
    pub fn generate() -> (p: PkceParameters)
        ensures
            is_code_verifier(p.code_verifier@),
            p.code_verifier@.len() == 43,
            forall|i: int| 0 <= i < 43 ==> is_base64_symbol(true, #[trigger] p.code_verifier@[i]),
            p.well_formed(),
    {
        PkceParameters::from_verifier(create_code_verifier())
    }
}

/// The code verifier made from a seed: its unpadded URL-safe Base64
/// text. A seed of 32 bytes gives a verifier of 43 symbols.
pub fn code_verifier_from_seed(seed: &[u8]) -> (verifier: String)
    ensures
        verifier@ == base64_text(true, false, seed@),
        verifier@.len() == (4 * seed@.len() + 2) / 3,
        forall|i: int|
            0 <= i < verifier@.len() ==> is_base64_symbol(true, #[trigger] verifier@[i]),
        seed@.len() == 32 ==> is_code_verifier(verifier@) && verifier@.len() == 43,
{
    proof {
        lemma_base64_unpadded_len(true, seed@);
        lemma_base64_unpadded_alphabet(true, seed@);
    }
    base64_url_encode(seed)
}

/// A fresh code verifier: the unpadded URL-safe Base64 text of 32 random
/// bytes, which is 43 symbols long.
pub fn create_code_verifier() -> (verifier: String)
    ensures
        is_code_verifier(verifier@),
        verifier@.len() == 43,
        forall|i: int| 0 <= i < 43 ==> is_base64_symbol(true, #[trigger] verifier@[i]),
{
    let seed = random_seed();
    code_verifier_from_seed(seed.as_slice())
}

/// The S256 code challenge of a verifier: the unpadded URL-safe Base64
/// text of the SHA-256 digest of its bytes, 43 symbols long.
pub fn create_s256_code_challenge(verifier: &[u8]) -> (challenge: String)
    ensures
        challenge@ == code_challenge_text(verifier@),
        challenge@.len() == 43,
{
    let digest = sha256(verifier);
    proof {
        lemma_base64_unpadded_len(true, digest@);
    }
    base64_url_encode(digest.as_slice())
}

/// The device serial made from a UUID text: the text without hyphens, in
/// upper case.
pub fn serial_from_uuid(uuid: &str) -> (serial: String)
    ensures
        serial@ == dashless_upper(uuid@),
{
    let chars = chars_of(uuid);
    let mut serial = String::new();
    let mut i: usize = 0;
    while i < chars.len()
        invariant
            i <= chars.len(),
            serial@ == dashless_upper(chars@.take(i as int)),
        decreases chars.len() - i,
    {
        let c = chars[i];
        proof {
            assert(chars@.take(i + 1).drop_last() =~= chars@.take(i as int));
        }
        if c != '-' {
            if 'a' <= c && c <= 'z' {
                serial.push(((c as u8) - 32) as char);
            } else {
                serial.push(c);
            }
        }
        i += 1;
    }
    proof {
        assert(chars@.take(chars@.len() as int) =~= chars@);
    }
    serial
}

/// On a prefix of a hyphenated UUID, `dashless_upper` yields one
/// upper-case hexadecimal digit for every character that is no hyphen.
proof fn lemma_dashless_upper_prefix(s: Seq<char>, n: int)
    requires
        is_hyphenated_uuid(s),
        0 <= n <= 36,
    ensures
        dashless_upper(s.take(n)).len() == n - (if n > 23 {
            4int
        } else if n > 18 {
            3
        } else if n > 13 {
            2
        } else if n > 8 {
            1
        } else {
            0
        }),
        forall|i: int|
            0 <= i < dashless_upper(s.take(n)).len() ==> is_upper_hex(
                #[trigger] dashless_upper(s.take(n))[i],
            ),
    decreases n,
{
    if n > 0 {
        lemma_dashless_upper_prefix(s, n - 1);
        assert(s.take(n).drop_last() =~= s.take(n - 1));
        assert(s.take(n).last() == s[n - 1]);
        if is_uuid_hyphen_index(n - 1) {
            assert(s[n - 1] == '-');
        } else {
            assert(is_lower_hex(s[n - 1]));
        }
    }
}

/// The serial made from a hyphenated UUID is 32 upper-case hexadecimal
/// digits.
pub proof fn lemma_uuid_serial(uuid: Seq<char>)
    requires
        is_hyphenated_uuid(uuid),
    ensures
        is_device_serial(dashless_upper(uuid)),
{
    lemma_dashless_upper_prefix(uuid, 36);
    assert(uuid.take(36) =~= uuid);
}

/// A fresh device serial: 32 upper-case hexadecimal digits, from a
/// random UUID.
pub fn build_device_serial() -> (serial: String)
    ensures
        is_device_serial(serial@),
{
    let uuid = random_uuid();
    proof {
        lemma_uuid_serial(uuid@);
    }
    serial_from_uuid(uuid.as_str())
}

/// The client id that belongs to a device serial.
pub fn build_client_id(serial: &str) -> (client_id: String)
    ensures
        client_id@ == client_id_text(serial@),
{
    let mut bytes = slice_to_vec(serial.as_bytes());
    bytes.extend_from_slice("#A2CZJZGLK2JJVM".as_bytes());
    hex_encode(bytes.as_slice())
}

/// Whether a domain, given in lower case, has the username flow.
pub fn is_username_domain(lowered_domain: &str) -> (allowed: bool)
    ensures
        allowed == username_flow_allowed(lowered_domain@),
{
    text_eq(lowered_domain, "de") || text_eq(lowered_domain, "com") || text_eq(
        lowered_domain,
        "co.uk",
    )
}

/// Whether the username flow exists on `domain`, whatever its case.
pub fn username_flow_supported(domain: &str) -> (allowed: bool)
    ensures
        allowed == username_flow_allowed(unicode_lowercase(domain@)),
        is_ascii_chars(domain@) ==> allowed == username_flow_allowed(ascii_lowercase(domain@)),
{
    let lowered = to_lowercase(domain);
    is_username_domain(lowered.as_str())
}

fn param(name: &str, value: &str) -> (p: (String, String))
    ensures
        p.0@ == name@,
        p.1@ == value@,
{
    (String::from_str(name), String::from_str(value))
}

/// The authorization URL for a given device serial and code verifier.
pub fn oauth_url(
    country_code: &str,
    domain: &str,
    market_place_id: &str,
    serial: &str,
    code_verifier: &str,
    with_username: bool,
) -> (url: String)
    ensures
        url@ == oauth_url_text(
            country_code@,
            domain@,
            market_place_id@,
            serial@,
            code_verifier@,
            with_username,
        ),
{
    let client_id = build_client_id(serial);
    let code_challenge = create_s256_code_challenge(code_verifier.as_bytes());
    let site = if with_username {
        "audible"
    } else {
        "amazon"
    };
    let mut base_url = String::from_str("https://www.");
    base_url.append(site);
    base_url.append(".");
    base_url.append(domain);
    let mut return_to = base_url.clone();
    base_url.append("/ap/signin");
    return_to.append("/ap/maplanding");
    let mut assoc_handle = String::from_str(
        if with_username {
            "amzn_audible_ios_lap_"
        } else {
            "amzn_audible_ios_"
        },
    );
    assoc_handle.append(country_code);
    let page_id = if with_username {
        "amzn_audible_ios_privatepool"
    } else {
        "amzn_audible_ios"
    };
    let mut device = String::from_str("device:");
    device.append(client_id.as_str());

    let mut params: Vec<(String, String)> = Vec::new();
    params.push(param("openid.oa2.response_type", "code"));
    params.push(param("openid.oa2.code_challenge_method", "S256"));
    params.push(param("openid.oa2.code_challenge", code_challenge.as_str()));
    params.push(param("openid.return_to", return_to.as_str()));
    params.push(param("openid.assoc_handle", assoc_handle.as_str()));
    params.push(param("openid.identity", "http://specs.openid.net/auth/2.0/identifier_select"));
    params.push(param("pageId", page_id));
    params.push(param("accountStatusPolicy", "P1"));
    params.push(param("openid.claimed_id", "http://specs.openid.net/auth/2.0/identifier_select"));
    params.push(param("openid.mode", "checkid_setup"));
    params.push(param("openid.ns.oa2", "http://www.amazon.com/ap/ext/oauth/2"));
    params.push(param("openid.oa2.client_id", device.as_str()));
    params.push(param("openid.ns.pape", "http://specs.openid.net/extensions/pape/1.0"));
    params.push(param("marketPlaceId", market_place_id));
    params.push(param("openid.oa2.scope", "device_auth_access"));
    params.push(param("forceMobileLayout", "true"));
    params.push(param("openid.ns", "http://specs.openid.net/auth/2.0"));
    params.push(param("openid.pape.max_auth_age", "0"));
    proof {
        assert(pairs_view(params@) =~= oauth_params(
            country_code@,
            domain@,
            market_place_id@,
            client_id@,
            code_challenge@,
            with_username,
        ));
    }
    let query = form_urlencode(&params);
    let mut url = base_url;
    url.append("?");
    url.append(query.as_str());
    url
}

/// The view of the error that refuses the username flow.
pub open spec fn unsupported_domain_error() -> crate::error::AppErrorView {
    error_view(
        ErrorKind::UnsupportedDomainForUsernameFlow,
        "Username is not supported for this domain"@,
    )
}

/// The authorization URL of a sign-in attempt, with the code verifier
/// and the device serial it was built for.
///
/// The username flow is refused on any domain but `de`, `com` and
/// `co.uk`. Otherwise the verifier is fresh, and the serial is the one
/// supplied or, without one, fresh as well.
pub fn build_oauth_url(
    country_code: &str,
    domain: &str,
    market_place_id: &str,
    device_serial: Option<String>,
    with_username: bool,
) -> (built: Result<(String, String, String), AppError>)
    ensures
        built is Err <==> with_username && !username_flow_allowed(unicode_lowercase(domain@)),
        is_ascii_chars(domain@) ==> (built is Err <==> with_username && !username_flow_allowed(
            ascii_lowercase(domain@),
        )),
        built matches Err(e) ==> e@ == unsupported_domain_error(),
        built matches Ok(t) ==> {
            &&& is_code_verifier(t.1@)
            &&& t.1@.len() == 43
            &&& match device_serial {
                Some(given) => t.2@ == given@,
                None => is_device_serial(t.2@),
            }
            &&& t.0@ == oauth_url_text(
                country_code@,
                domain@,
                market_place_id@,
                t.2@,
                t.1@,
                with_username,
            )
        },
{
    if with_username && !username_flow_supported(domain) {
        return Err(
            AppError::new(
                ErrorKind::UnsupportedDomainForUsernameFlow,
                "Username is not supported for this domain",
            ),
        );
    }
    let code_verifier = create_code_verifier();
    let serial = match device_serial {
        Some(given) => given,
        None => build_device_serial(),
    };
    let url = oauth_url(
        country_code,
        domain,
        market_place_id,
        serial.as_str(),
        code_verifier.as_str(),
        with_username,
    );
    Ok((url, code_verifier, serial))
}

/// The view of the error for a redirect URL without authorization code.
pub open spec fn code_missing_error() -> crate::error::AppErrorView {
    error_view(
        ErrorKind::AuthorizationCodeMissing,
        "Authorization code not found in response URL"@,
    )
}

/// The view of the error for a redirect text that is no URL.
pub open spec fn not_a_url_error() -> crate::error::AppErrorView {
    error_view(ErrorKind::AuthorizationCodeMissing, "Response URL is not a valid URL"@)
}

/// The value of the last pair named `key`, if any pair has that name.
pub fn last_value_of(pairs: &Vec<(String, String)>, key: &str) -> (value: Option<String>)
    ensures
        match value {
            Some(v) => last_value(pairs_view(pairs@), key@) == Some(v@),
            None => last_value(pairs_view(pairs@), key@) is None,
        },
{
    let mut i: usize = pairs.len();
    proof {
        assert(pairs_view(pairs@).take(pairs@.len() as int) =~= pairs_view(pairs@));
    }
    while i > 0
        invariant
            i <= pairs.len(),
            last_value(pairs_view(pairs@), key@) == last_value(
                pairs_view(pairs@).take(i as int),
                key@,
            ),
        decreases i,
    {
        i -= 1;
        proof {
            let prefix = pairs_view(pairs@).take(i + 1);
            assert(prefix.last() == pairs_view(pairs@)[i as int]);
            assert(prefix.drop_last() =~= pairs_view(pairs@).take(i as int));
        }
        if text_eq(pairs[i].0.as_str(), key) {
            return Some(pairs[i].1.clone());
        }
    }
    None
}

/// What extracting the authorization code comes to, given the query
/// pairs of the redirect URL.
pub open spec fn auth_code_result(pairs: Option<Seq<(Seq<char>, Seq<char>)>>) -> Result<
    Seq<char>,
    crate::error::AppErrorView,
> {
    match pairs {
        None => Err(not_a_url_error()),
        Some(p) => match last_value(p, authorization_code_key()) {
            Some(code) => Ok(code),
            None => Err(code_missing_error()),
        },
    }
}

/// The view of a result that holds a string or an error.
pub open spec fn text_result_view(r: Result<String, AppError>) -> Result<
    Seq<char>,
    crate::error::AppErrorView,
> {
    match r {
        Ok(s) => Ok(s@),
        Err(e) => Err(e@),
    }
}

/// The authorization code among the query pairs of a redirect URL; `None`
/// for `pairs` stands for a redirect text that is no URL.
pub fn auth_code_from_pairs(pairs: Option<Vec<(String, String)>>) -> (code: Result<
    String,
    AppError,
>)
    ensures
        text_result_view(code) == auth_code_result(
            match pairs {
                Some(p) => Some(pairs_view(p@)),
                None => None,
            },
        ),
{
    match pairs {
        None => Err(
            AppError::new(ErrorKind::AuthorizationCodeMissing, "Response URL is not a valid URL"),
        ),
        Some(p) => match last_value_of(&p, "openid.oa2.authorization_code") {
            Some(code) => Ok(code),
            None => Err(
                AppError::new(
                    ErrorKind::AuthorizationCodeMissing,
                    "Authorization code not found in response URL",
                ),
            ),
        },
    }
}

/// The authorization code that a redirect URL carries in its query, as
/// the value of `openid.oa2.authorization_code`. Where the parameter
/// occurs more than once, the last occurrence counts.
pub fn extract_auth_code(response_url: &str) -> (code: Result<String, AppError>)
    ensures
        text_result_view(code) == auth_code_result(url_query_pairs(response_url@)),
{
    auth_code_from_pairs(parse_query_pairs(response_url))
}

} // verus!
