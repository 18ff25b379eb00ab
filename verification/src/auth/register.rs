//! Device registration: the request that exchanges an authorization code
//! for device credentials, and the reading of its answer.

use vstd::prelude::*;
use vstd::string::*;
use crate::auth::oauth::{build_client_id, client_id_text};
use crate::error::{error_view, AppError, AppErrorView, ErrorKind};
use crate::json::{items_view, or_null, Json, JsonValue, MemberValue};
use crate::system::now_timestamp;
use crate::text::{chars_of, parse_i64, signed_decimal};
use crate::text_map::TextMap;

verus! {

/// The credentials of a registered device.
#[derive(Debug)]
pub struct Registration {
    pub device_serial: String,
    pub client_id: String,
    pub adp_token: String,
    pub device_private_key: String,
    pub access_token: String,
    pub refresh_token: String,
    /// When the access token expires, in seconds since the Unix epoch.
    pub expires: i64,
    pub website_cookies: TextMap<String>,
    pub store_authentication_cookie: String,
    pub device_info: Json,
    pub customer_info: Json,
}

/// The mathematical value of a [`Registration`].
pub struct RegistrationView {
    pub device_serial: Seq<char>,
    pub client_id: Seq<char>,
    pub adp_token: Seq<char>,
    pub device_private_key: Seq<char>,
    pub access_token: Seq<char>,
    pub refresh_token: Seq<char>,
    pub expires: int,
    pub website_cookies: Map<Seq<char>, Seq<char>>,
    pub store_authentication_cookie: Seq<char>,
    pub device_info: JsonValue,
    pub customer_info: JsonValue,
}

/// A map of strings, each value taken by its view.
pub open spec fn text_values(m: Map<Seq<char>, String>) -> Map<Seq<char>, Seq<char>> {
    Map::new(|k: Seq<char>| m.dom().contains(k), |k: Seq<char>| m[k]@)
}

impl View for Registration {
    type V = RegistrationView;

    open spec fn view(&self) -> RegistrationView {
        RegistrationView {
            device_serial: self.device_serial@,
            client_id: self.client_id@,
            adp_token: self.adp_token@,
            device_private_key: self.device_private_key@,
            access_token: self.access_token@,
            refresh_token: self.refresh_token@,
            expires: self.expires as int,
            website_cookies: text_values(self.website_cookies@),
            store_authentication_cookie: self.store_authentication_cookie@,
            device_info: self.device_info@,
            customer_info: self.customer_info@,
        }
    }
}

/// A registration request: where to post it, and its JSON body.
#[derive(Debug)]
pub struct RegistrationRequest {
    pub url: String,
    pub body: Json,
}

/// What the registration endpoint answered.
#[derive(Debug)]
pub enum RegistrationReply {
    /// A status other than success, with the text of the response body.
    Rejected(String),
    /// A success status, with the JSON value of the response body.
    Accepted(Json),
}

/// The mathematical value of a [`RegistrationReply`].
pub enum RegistrationReplyView {
    Rejected(Seq<char>),
    Accepted(JsonValue),
}

impl View for RegistrationReply {
    type V = RegistrationReplyView;

    open spec fn view(&self) -> RegistrationReplyView {
        match self {
            RegistrationReply::Rejected(body) => RegistrationReplyView::Rejected(body@),
            RegistrationReply::Accepted(body) => RegistrationReplyView::Accepted(body@),
        }
    }
}

/// A member of a JSON object.
pub open spec fn member(name: Seq<char>, value: JsonValue) -> MemberValue {
    MemberValue { name, value }
}

/// A member of a JSON object whose value is a string.
pub open spec fn text_member(name: Seq<char>, value: Seq<char>) -> MemberValue {
    MemberValue { name, value: JsonValue::Text(value) }
}

/// The address of the registration endpoint.
pub open spec fn register_url_text(domain: Seq<char>, with_username: bool) -> Seq<char> {
    "https://api."@ + (if with_username {
        "audible"@
    } else {
        "amazon"@
    }) + "."@ + domain + "/auth/register"@
}

/// The token types that a registration asks for.
pub open spec fn requested_token_types() -> JsonValue {
    JsonValue::Array(
        seq![
            JsonValue::Text("bearer"@),
            JsonValue::Text("mac_dms"@),
            JsonValue::Text("website_cookies"@),
            JsonValue::Text("store_authentication_cookie"@),
        ],
    )
}

/// The cookie part of the request: no cookies yet, for the vendor's
/// domain.
pub open spec fn cookies_part(domain: Seq<char>) -> JsonValue {
    JsonValue::Object(
        seq![
            member("website_cookies"@, JsonValue::Array(Seq::empty())),
            text_member("domain"@, ".amazon."@ + domain),
        ],
    )
}

/// The description of the device and the application.
pub open spec fn registration_data(device_serial: Seq<char>) -> JsonValue {
    JsonValue::Object(
        seq![
            text_member("domain"@, "Device"@),
            text_member("app_version"@, "3.56.2"@),
            text_member("device_serial"@, device_serial),
            text_member("device_type"@, "A2CZJZGLK2JJVM"@),
            text_member(
                "device_name"@,
                "%FIRST_NAME%%FIRST_NAME_POSSESSIVE_STRING%%DUPE_STRATEGY_1ST%Audible for iPhone"@,
            ),
            text_member("os_version"@, "15.0.0"@),
            text_member("software_version"@, "35602678"@),
            text_member("device_model"@, "iPhone"@),
            text_member("app_name"@, "Audible"@),
        ],
    )
}

/// The proof of authorization: client id, authorization code and the
/// code verifier behind the challenge.
pub open spec fn auth_data(
    client_id: Seq<char>,
    authorization_code: Seq<char>,
    code_verifier: Seq<char>,
) -> JsonValue {
    JsonValue::Object(
        seq![
            text_member("client_id"@, client_id),
            text_member("authorization_code"@, authorization_code),
            text_member("code_verifier"@, code_verifier),
            text_member("code_algorithm"@, "SHA-256"@),
            text_member("client_domain"@, "DeviceLegacy"@),
        ],
    )
}

/// The extensions that a registration asks for.
pub open spec fn requested_extensions() -> JsonValue {
    JsonValue::Array(seq![JsonValue::Text("device_info"@), JsonValue::Text("customer_info"@)])
}

/// The body of the registration request.
pub open spec fn register_body(
    authorization_code: Seq<char>,
    code_verifier: Seq<char>,
    domain: Seq<char>,
    device_serial: Seq<char>,
) -> JsonValue {
    JsonValue::Object(
        seq![
            member("requested_token_type"@, requested_token_types()),
            member("cookies"@, cookies_part(domain)),
            member("registration_data"@, registration_data(device_serial)),
            member(
                "auth_data"@,
                auth_data(client_id_text(device_serial), authorization_code, code_verifier),
            ),
            member("requested_extensions"@, requested_extensions()),
        ],
    )
}

/// `s` without the double quotes it begins with.
pub open spec fn without_leading_quotes(s: Seq<char>) -> Seq<char>
    decreases s.len(),
{
    if s.len() > 0 && s[0] == '"' {
        without_leading_quotes(s.skip(1))
    } else {
        s
    }
}

/// `s` without the double quotes it ends with.
pub open spec fn without_trailing_quotes(s: Seq<char>) -> Seq<char>
    decreases s.len(),
{
    if s.len() > 0 && s.last() == '"' {
        without_trailing_quotes(s.drop_last())
    } else {
        s
    }
}

/// `s` without the double quotes that surround it: those it begins
/// with and those it ends with. A quote inside stays.
pub open spec fn without_surrounding_quotes(s: Seq<char>) -> Seq<char> {
    without_trailing_quotes(without_leading_quotes(s))
}

/// The cookie that an element of the cookie list stands for: its `Name`
/// and its `Value` without surrounding quotes, where both are strings.
pub open spec fn cookie_of(item: JsonValue) -> Option<(Seq<char>, Seq<char>)> {
    match (item.index("Name"@).as_text(), item.index("Value"@).as_text()) {
        (Some(name), Some(value)) => Some((name, without_surrounding_quotes(value))),
        _ => None,
    }
}

/// The cookies of a cookie list by name; of two cookies with one name the
/// later one stays.
pub open spec fn cookies_of(items: Seq<JsonValue>) -> Map<Seq<char>, Seq<char>>
    decreases items.len(),
{
    if items.len() == 0 {
        Map::empty()
    } else {
        match cookie_of(items.last()) {
            Some(cookie) => cookies_of(items.drop_last()).insert(cookie.0, cookie.1),
            None => cookies_of(items.drop_last()),
        }
    }
}

/// The tokens of a registration answer.
pub open spec fn tokens_of(json: JsonValue) -> JsonValue {
    json.index("response"@).index("success"@).index("tokens"@)
}

/// The extensions of a registration answer.
pub open spec fn extensions_of(json: JsonValue) -> JsonValue {
    json.index("response"@).index("success"@).index("extensions"@)
}

/// The string at `tokens[group][name]`, if there is one.
pub open spec fn token_text(json: JsonValue, group: Seq<char>, name: Seq<char>) -> Option<
    Seq<char>,
> {
    tokens_of(json).index(group).index(name).as_text()
}

/// The website cookies of a registration answer.
pub open spec fn website_cookies_of(json: JsonValue) -> Map<Seq<char>, Seq<char>> {
    match tokens_of(json).index("website_cookies"@).as_items() {
        Some(items) => cookies_of(items),
        None => Map::empty(),
    }
}

/// The view of the error for an answer that lacks a token field or holds
/// one that cannot be used.
pub open spec fn malformed(message: Seq<char>) -> AppErrorView {
    error_view(ErrorKind::MalformedRegistrationResponse, message)
}

/// The view of the error for a rejected registration: it carries the
/// response body.
pub open spec fn rejected(body: Seq<char>) -> AppErrorView {
    error_view(ErrorKind::RegistrationFailed, "Failed to register: "@ + body)
}

/// The registration that a successful answer holds for a device, read at
/// time `now`; or the error for the first token field, in the order
/// below, that is missing or unusable.
pub open spec fn registration_of(json: JsonValue, device_serial: Seq<char>, now: int) -> Result<
    RegistrationView,
    AppErrorView,
> {
    if token_text(json, "mac_dms"@, "adp_token"@) is None {
        Err(malformed("Missing adp_token"@))
    } else if token_text(json, "mac_dms"@, "device_private_key"@) is None {
        Err(malformed("Missing device_private_key"@))
    } else if token_text(json, "store_authentication_cookie"@, "cookie"@) is None {
        Err(malformed("Missing store_authentication_cookie"@))
    } else if token_text(json, "bearer"@, "access_token"@) is None {
        Err(malformed("Missing access_token"@))
    } else if token_text(json, "bearer"@, "refresh_token"@) is None {
        Err(malformed("Missing refresh_token"@))
    } else if token_text(json, "bearer"@, "expires_in"@) is None {
        Err(malformed("Missing expires_in"@))
    } else {
        match signed_decimal(token_text(json, "bearer"@, "expires_in"@)->0) {
            None => Err(malformed("Invalid expires_in"@)),
            Some(seconds) => if now + seconds < i64::MIN || now + seconds > i64::MAX {
                Err(malformed("Expiry out of range"@))
            } else {
                Ok(
                    RegistrationView {
                        device_serial,
                        client_id: client_id_text(device_serial),
                        adp_token: token_text(json, "mac_dms"@, "adp_token"@)->0,
                        device_private_key: token_text(json, "mac_dms"@, "device_private_key"@)->0,
                        access_token: token_text(json, "bearer"@, "access_token"@)->0,
                        refresh_token: token_text(json, "bearer"@, "refresh_token"@)->0,
                        expires: now + seconds,
                        website_cookies: website_cookies_of(json),
                        store_authentication_cookie: token_text(
                            json,
                            "store_authentication_cookie"@,
                            "cookie"@,
                        )->0,
                        device_info: extensions_of(json).index("device_info"@),
                        customer_info: extensions_of(json).index("customer_info"@),
                    },
                )
            },
        }
    }
}

/// What a reply of the registration endpoint comes to.
pub open spec fn registration_result(
    reply: RegistrationReplyView,
    device_serial: Seq<char>,
    now: int,
) -> Result<RegistrationView, AppErrorView> {
    match reply {
        RegistrationReplyView::Rejected(body) => Err(rejected(body)),
        RegistrationReplyView::Accepted(json) => registration_of(json, device_serial, now),
    }
}

/// The view of a result that holds a registration or an error.
pub open spec fn registration_view(r: Result<Registration, AppError>) -> Result<
    RegistrationView,
    AppErrorView,
> {
    match r {
        Ok(registration) => Ok(registration@),
        Err(e) => Err(e@),
    }
}

fn text_field(name: &str, value: &str) -> (m: (String, Json))
    ensures
        m.0@ == name@,
        m.1@ == JsonValue::Text(value@),
{
    (String::from_str(name), Json::text(value))
}

fn field(name: &str, value: Json) -> (m: (String, Json))
    ensures
        m.0@ == name@,
        m.1@ == value@,
{
    (String::from_str(name), value)
}

/// The registration request for an authorization code.
pub fn registration_request(
    authorization_code: &str,
    code_verifier: &str,
    domain: &str,
    device_serial: &str,
    with_username: bool,
) -> (request: RegistrationRequest)
    ensures
        request.url@ == register_url_text(domain@, with_username),
        request.body@ == register_body(
            authorization_code@,
            code_verifier@,
            domain@,
            device_serial@,
        ),
{
    let client_id = build_client_id(device_serial);

    let mut token_types: Vec<Json> = Vec::new();
    token_types.push(Json::text("bearer"));
    token_types.push(Json::text("mac_dms"));
    token_types.push(Json::text("website_cookies"));
    token_types.push(Json::text("store_authentication_cookie"));
    let token_types = Json::array(token_types);
    assert(token_types@->Array_0 =~= requested_token_types()->Array_0);

    let mut cookie_domain = String::from_str(".amazon.");
    cookie_domain.append(domain);
    let mut cookies: Vec<(String, Json)> = Vec::new();
    let no_cookies = Json::array(Vec::new());
    assert(no_cookies@->Array_0 =~= Seq::<JsonValue>::empty());
    cookies.push(field("website_cookies", no_cookies));
    cookies.push(text_field("domain", cookie_domain.as_str()));
    let cookies = Json::object(cookies);
    assert(cookies@->Object_0 =~= cookies_part(domain@)->Object_0);

    let mut data: Vec<(String, Json)> = Vec::new();
    data.push(text_field("domain", "Device"));
    data.push(text_field("app_version", "3.56.2"));
    data.push(text_field("device_serial", device_serial));
    data.push(text_field("device_type", "A2CZJZGLK2JJVM"));
    data.push(
        text_field(
            "device_name",
            "%FIRST_NAME%%FIRST_NAME_POSSESSIVE_STRING%%DUPE_STRATEGY_1ST%Audible for iPhone",
        ),
    );
    data.push(text_field("os_version", "15.0.0"));
    data.push(text_field("software_version", "35602678"));
    data.push(text_field("device_model", "iPhone"));
    data.push(text_field("app_name", "Audible"));
    let data = Json::object(data);
    assert(data@->Object_0 =~= registration_data(device_serial@)->Object_0);

    let mut auth: Vec<(String, Json)> = Vec::new();
    auth.push(text_field("client_id", client_id.as_str()));
    auth.push(text_field("authorization_code", authorization_code));
    auth.push(text_field("code_verifier", code_verifier));
    auth.push(text_field("code_algorithm", "SHA-256"));
    auth.push(text_field("client_domain", "DeviceLegacy"));
    let auth = Json::object(auth);
    assert(auth@->Object_0 =~= auth_data(
        client_id@,
        authorization_code@,
        code_verifier@,
    )->Object_0);

    let mut extensions: Vec<Json> = Vec::new();
    extensions.push(Json::text("device_info"));
    extensions.push(Json::text("customer_info"));
    let extensions = Json::array(extensions);
    assert(extensions@->Array_0 =~= requested_extensions()->Array_0);

    let mut body: Vec<(String, Json)> = Vec::new();
    body.push(field("requested_token_type", token_types));
    body.push(field("cookies", cookies));
    body.push(field("registration_data", data));
    body.push(field("auth_data", auth));
    body.push(field("requested_extensions", extensions));
    let body = Json::object(body);
    assert(body@->Object_0 =~= register_body(
        authorization_code@,
        code_verifier@,
        domain@,
        device_serial@,
    )->Object_0);

    let mut url = String::from_str("https://api.");
    url.append(
        if with_username {
            "audible"
        } else {
            "amazon"
        },
    );
    url.append(".");
    url.append(domain);
    url.append("/auth/register");
    RegistrationRequest { url, body }
}

/// The member `key` of what was found, if anything was.
fn get_in<'a>(found: Option<&'a Json>, key: &str) -> (inner: Option<&'a Json>)
    ensures
        or_null(inner) == or_null(found).index(key@),
{
    match found {
        Some(json) => json.get(key),
        None => None,
    }
}

/// The string at `tokens[group][name]` of a registration answer.
fn token(json: &Json, group: &str, name: &str) -> (text: Option<String>)
    ensures
        match text {
            Some(t) => token_text(json@, group@, name@) == Some(t@),
            None => token_text(json@, group@, name@) is None,
        },
{
    let tokens = get_in(get_in(json.get("response"), "success"), "tokens");
    match get_in(get_in(tokens, group), name) {
        Some(found) => match found.as_str() {
            Some(t) => Some(String::from_str(t)),
            None => None,
        },
        None => None,
    }
}

/// A copy of what was found, or `Null`.
fn copy_or_null(found: Option<&Json>) -> (copy: Json)
    ensures
        copy@ == or_null(found),
{
    match found {
        Some(json) => json.duplicate(),
        None => Json::Null,
    }
}

/// A copy of `s` without the double quotes that surround it.
pub fn strip_quotes(s: &str) -> (out: String)
    ensures
        out@ == without_surrounding_quotes(s@),
{
    let chars = chars_of(s);
    let n = chars.len();
    let mut start: usize = 0;
    proof {
        assert(chars@.skip(0) =~= chars@);
    }
    while start < n && chars[start] == '"'
        invariant
            start <= n,
            n == chars@.len(),
            without_leading_quotes(chars@) == without_leading_quotes(chars@.skip(start as int)),
        decreases n - start,
    {
        proof {
            assert(chars@.skip(start as int).skip(1) =~= chars@.skip(start + 1));
        }
        start += 1;
    }
    let ghost inner = chars@.skip(start as int);
    assert(without_leading_quotes(chars@) == inner);
    let mut end: usize = n;
    proof {
        assert(chars@.subrange(start as int, n as int) =~= inner);
    }
    while end > start && chars[end - 1] == '"'
        invariant
            start <= end <= n,
            n == chars@.len(),
            without_trailing_quotes(inner) == without_trailing_quotes(
                chars@.subrange(start as int, end as int),
            ),
        decreases end,
    {
        proof {
            assert(chars@.subrange(start as int, end as int).drop_last() =~= chars@.subrange(
                start as int,
                end - 1,
            ));
        }
        end -= 1;
    }
    assert(without_trailing_quotes(inner) == chars@.subrange(start as int, end as int));
    let mut out = String::new();
    let mut i: usize = start;
    proof {
        assert(chars@.subrange(start as int, start as int) =~= Seq::<char>::empty());
    }
    while i < end
        invariant
            start <= i <= end <= n,
            n == chars@.len(),
            out@ == chars@.subrange(start as int, i as int),
        decreases end - i,
    {
        out.push(chars[i]);
        proof {
            assert(chars@.subrange(start as int, i + 1) =~= chars@.subrange(
                start as int,
                i as int,
            ).push(chars@[i as int]));
        }
        i += 1;
    }
    out
}

/// The cookies of a cookie list, by name.
fn read_cookies(items: &Vec<Json>) -> (cookies: TextMap<String>)
    ensures
        text_values(cookies@) == cookies_of(items_view(items@)),
{
    let mut cookies: TextMap<String> = TextMap::new();
    let mut i: usize = 0;
    proof {
        assert(text_values(cookies@) =~= Map::<Seq<char>, Seq<char>>::empty());
        assert(items_view(items@).take(0) =~= Seq::<JsonValue>::empty());
    }
    while i < items.len()
        invariant
            i <= items.len(),
            text_values(cookies@) == cookies_of(items_view(items@).take(i as int)),
        decreases items.len() - i,
    {
        let ghost before = cookies@;
        proof {
            let upto = items_view(items@).take(i + 1);
            assert(upto.drop_last() =~= items_view(items@).take(i as int));
            assert(upto.last() == items@[i as int]@);
        }
        let item = &items[i];
        match get_in(Some(item), "Name") {
            Some(name_json) => {
                match get_in(Some(item), "Value") {
                    Some(value_json) => {
                        match (name_json.as_str(), value_json.as_str()) {
                            (Some(name), Some(value)) => {
                                let stripped = strip_quotes(value);
                                let ghost stripped_view = stripped@;
                                cookies.insert(String::from_str(name), stripped);
                                proof {
                                    assert(text_values(cookies@) =~= text_values(before).insert(
                                        name@,
                                        stripped_view,
                                    ));
                                }
                            },
                            _ => {},
                        }
                    },
                    None => {},
                }
            },
            None => {},
        }
        i += 1;
    }
    proof {
        assert(items_view(items@).take(items@.len() as int) =~= items_view(items@));
    }
    cookies
}

fn malformed_error(message: &str) -> (e: AppError)
    ensures
        e@ == malformed(message@),
{
    AppError::new(ErrorKind::MalformedRegistrationResponse, message)
}

/// The registration that a successful answer of the endpoint holds for
/// the device `device_serial`, read at time `now`.
///
/// The answer must hold, as strings, the ADP token, the device's private
/// key, the store authentication cookie, the access and refresh tokens
/// and the life time of the access token in seconds. The expiry is `now`
/// plus that life time.
pub fn registration_from_response(json: &Json, device_serial: &str, now: i64) -> (registration:
    Result<Registration, AppError>)
    ensures
        registration_view(registration) == registration_of(json@, device_serial@, now as int),
{
    let adp_token = match token(json, "mac_dms", "adp_token") {
        Some(t) => t,
        None => { return Err(malformed_error("Missing adp_token")); },
    };
    let device_private_key = match token(json, "mac_dms", "device_private_key") {
        Some(t) => t,
        None => { return Err(malformed_error("Missing device_private_key")); },
    };
    let store_authentication_cookie = match token(json, "store_authentication_cookie", "cookie") {
        Some(t) => t,
        None => { return Err(malformed_error("Missing store_authentication_cookie")); },
    };
    let access_token = match token(json, "bearer", "access_token") {
        Some(t) => t,
        None => { return Err(malformed_error("Missing access_token")); },
    };
    let refresh_token = match token(json, "bearer", "refresh_token") {
        Some(t) => t,
        None => { return Err(malformed_error("Missing refresh_token")); },
    };
    let expires_in = match token(json, "bearer", "expires_in") {
        Some(t) => t,
        None => { return Err(malformed_error("Missing expires_in")); },
    };
    let seconds = match parse_i64(expires_in.as_str()) {
        Some(n) => n,
        None => { return Err(malformed_error("Invalid expires_in")); },
    };
    let expires = match now.checked_add(seconds) {
        Some(t) => t,
        None => { return Err(malformed_error("Expiry out of range")); },
    };
    let success = get_in(json.get("response"), "success");
    let extensions = get_in(success, "extensions");
    let device_info = copy_or_null(get_in(extensions, "device_info"));
    let customer_info = copy_or_null(get_in(extensions, "customer_info"));
    let website_cookies = match get_in(get_in(success, "tokens"), "website_cookies") {
        Some(list) => match list.as_array() {
            Some(items) => read_cookies(items),
            None => TextMap::new(),
        },
        None => TextMap::new(),
    };
    proof {
        assert(text_values(website_cookies@) =~= website_cookies_of(json@));
    }
    Ok(
        Registration {
            device_serial: String::from_str(device_serial),
            client_id: build_client_id(device_serial),
            adp_token,
            device_private_key,
            access_token,
            refresh_token,
            expires,
            website_cookies,
            store_authentication_cookie,
            device_info,
            customer_info,
        },
    )
}

/// The registration, or the error, that a reply of the endpoint comes to
/// at time `now`. A rejected request fails with `RegistrationFailed` and
/// the response body in its message.
pub fn registration_from_reply(reply: &RegistrationReply, device_serial: &str, now: i64) -> (registration:
    Result<Registration, AppError>)
    ensures
        registration_view(registration) == registration_result(
            reply@,
            device_serial@,
            now as int,
        ),
{
    match reply {
        RegistrationReply::Rejected(body) => {
            let mut message = String::from_str("Failed to register: ");
            message.append(body.as_str());
            Err(AppError { kind: ErrorKind::RegistrationFailed, message })
        },
        RegistrationReply::Accepted(json) => registration_from_response(json, device_serial, now),
    }
}

/// The registration, or the error, that a reply of the endpoint comes to
/// now: that of `registration_from_reply` at the time the clock shows.
pub fn complete_registration(reply: &RegistrationReply, device_serial: &str) -> (registration:
    Result<Registration, AppError>)
    ensures
        exists|now: i64|
            registration_view(registration) == #[trigger] registration_result(
                reply@,
                device_serial@,
                now as int,
            ),
{
    let now = now_timestamp();
    registration_from_reply(reply, device_serial, now)
}

} // verus!
