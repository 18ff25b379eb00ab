//! The stored form of a session: one JSON document that holds the
//! locale, the device registration, the authorization code and the code
//! verifier.

use vstd::prelude::*;
use vstd::string::*;
use crate::auth::register::{text_values, Registration, RegistrationView};
use crate::auth::{Auth, AuthView};
use crate::error::{error_view, AppError, AppErrorView, ErrorKind};
use crate::json::{members_view, or_null, Json, JsonValue, MemberValue};
use crate::localization::{Locale, LocaleView};
use crate::text::{
    i64_to_text, lemma_signed_text_round_trip, parse_i64, signed_decimal, signed_text,
};
use crate::text_map::{zip_map, TextMap};

verus! {

/// A member whose value is a string.
pub open spec fn string_member(name: Seq<char>, value: Seq<char>) -> MemberValue {
    MemberValue { name, value: JsonValue::Text(value) }
}

/// A member with any value.
pub open spec fn value_member(name: Seq<char>, value: JsonValue) -> MemberValue {
    MemberValue { name, value }
}

/// The stored form of a locale.
pub open spec fn locale_json(locale: LocaleView) -> JsonValue {
    JsonValue::Object(
        seq![
            string_member("country_code"@, locale.country_code),
            string_member("domain"@, locale.domain),
            string_member("market_place_id"@, locale.market_place_id),
        ],
    )
}

/// The stored form of a registration whose cookies are written as the
/// members `cookies`.
pub open spec fn registration_json(r: RegistrationView, cookies: Seq<MemberValue>) -> JsonValue {
    JsonValue::Object(
        seq![
            string_member("device_serial"@, r.device_serial),
            string_member("client_id"@, r.client_id),
            string_member("adp_token"@, r.adp_token),
            string_member("device_private_key"@, r.device_private_key),
            string_member("access_token"@, r.access_token),
            string_member("refresh_token"@, r.refresh_token),
            value_member("expires"@, JsonValue::Number(signed_text(r.expires))),
            value_member("website_cookies"@, JsonValue::Object(cookies)),
            string_member("store_authentication_cookie"@, r.store_authentication_cookie),
            value_member("device_info"@, r.device_info),
            value_member("customer_info"@, r.customer_info),
        ],
    )
}

/// The stored form of a session whose cookies are written as the
/// members `cookies`.
pub open spec fn session_json(session: AuthView, cookies: Seq<MemberValue>) -> JsonValue {
    JsonValue::Object(
        seq![
            value_member("locale"@, locale_json(session.locale)),
            value_member(
                "device_registration"@,
                registration_json(session.device_registration, cookies),
            ),
            string_member("authorization_code"@, session.authorization_code),
            string_member("code_verifier"@, session.code_verifier),
        ],
    )
}

/// The string member `key` of a value.
pub open spec fn text_at(json: JsonValue, key: Seq<char>) -> Option<Seq<char>> {
    json.index(key).as_text()
}

/// The number member `key` of a value, where it is a whole number of 64
/// bits.
pub open spec fn number_at(json: JsonValue, key: Seq<char>) -> Option<i64> {
    match json.index(key) {
        JsonValue::Number(text) => signed_decimal(text),
        _ => None,
    }
}

/// The cookies that the members of an object stand for, one member per
/// cookie; `None` where a member is no string.
pub open spec fn cookie_members(members: Seq<MemberValue>) -> Option<Map<Seq<char>, Seq<char>>>
    decreases members.len(),
{
    if members.len() == 0 {
        Some(Map::empty())
    } else {
        match (cookie_members(members.drop_last()), members.last().value) {
            (Some(front), JsonValue::Text(value)) => Some(front.insert(members.last().name, value)),
            _ => None,
        }
    }
}

/// The cookies stored in the member `key` of a value.
pub open spec fn cookies_at(json: JsonValue, key: Seq<char>) -> Option<Map<Seq<char>, Seq<char>>> {
    match json.index(key) {
        JsonValue::Object(members) => cookie_members(members),
        _ => None,
    }
}

/// The locale that a value stores, if it stores one.
pub open spec fn stored_locale(json: JsonValue) -> Option<LocaleView> {
    if text_at(json, "country_code"@) is Some && text_at(json, "domain"@) is Some && text_at(
        json,
        "market_place_id"@,
    ) is Some {
        Some(
            LocaleView {
                country_code: text_at(json, "country_code"@)->0,
                domain: text_at(json, "domain"@)->0,
                market_place_id: text_at(json, "market_place_id"@)->0,
            },
        )
    } else {
        None
    }
}

/// The registration that a value stores, if it stores one: every token
/// as a string, the expiry as a whole number, the cookies as an object
/// of strings. The two extensions must be there and are taken as they
/// are.
pub open spec fn stored_registration(json: JsonValue) -> Option<RegistrationView> {
    if text_at(json, "device_serial"@) is Some && text_at(json, "client_id"@) is Some && text_at(
        json,
        "adp_token"@,
    ) is Some && text_at(json, "device_private_key"@) is Some && text_at(json, "access_token"@)
        is Some && text_at(json, "refresh_token"@) is Some && number_at(json, "expires"@) is Some
        && cookies_at(json, "website_cookies"@) is Some && text_at(
        json,
        "store_authentication_cookie"@,
    ) is Some && json.has("device_info"@) && json.has("customer_info"@) {
        Some(
            RegistrationView {
                device_serial: text_at(json, "device_serial"@)->0,
                client_id: text_at(json, "client_id"@)->0,
                adp_token: text_at(json, "adp_token"@)->0,
                device_private_key: text_at(json, "device_private_key"@)->0,
                access_token: text_at(json, "access_token"@)->0,
                refresh_token: text_at(json, "refresh_token"@)->0,
                expires: number_at(json, "expires"@)->0 as int,
                website_cookies: cookies_at(json, "website_cookies"@)->0,
                store_authentication_cookie: text_at(json, "store_authentication_cookie"@)->0,
                device_info: json.index("device_info"@),
                customer_info: json.index("customer_info"@),
            },
        )
    } else {
        None
    }
}

/// The session that a value stores, if it stores one.
pub open spec fn stored_session(json: JsonValue) -> Option<AuthView> {
    if stored_locale(json.index("locale"@)) is Some && stored_registration(
        json.index("device_registration"@),
    ) is Some && text_at(json, "authorization_code"@) is Some && text_at(json, "code_verifier"@)
        is Some {
        Some(
            AuthView {
                locale: stored_locale(json.index("locale"@))->0,
                device_registration: stored_registration(json.index("device_registration"@))->0,
                authorization_code: text_at(json, "authorization_code"@)->0,
                code_verifier: text_at(json, "code_verifier"@)->0,
            },
        )
    } else {
        None
    }
}

/// The view of the error for a value that stores no session.
pub open spec fn not_a_session_error() -> AppErrorView {
    error_view(ErrorKind::PersistenceError, "Stored session is malformed"@)
}

/// What reading a stored session comes to.
pub open spec fn load_result(json: JsonValue) -> Result<AuthView, AppErrorView> {
    match stored_session(json) {
        Some(session) => Ok(session),
        None => Err(not_a_session_error()),
    }
}

/// The view of a result that holds a session or an error.
pub open spec fn session_view(r: Result<Auth, AppError>) -> Result<AuthView, AppErrorView> {
    match r {
        Ok(session) => Ok(session@),
        Err(e) => Err(e@),
    }
}

/// The member at `i` is what its name finds, where no later member has
/// the same name.
pub proof fn lemma_member_found(members: Seq<MemberValue>, i: int)
    requires
        0 <= i < members.len(),
        forall|j: int| i < j < members.len() ==> (#[trigger] members[j]).name != members[i].name,
    ensures
        crate::json::member_value(members, members[i].name) == members[i].value,
    decreases members.len(),
{
    if i < members.len() - 1 {
        let front = members.drop_last();
        assert(members.last() == members[members.len() - 1]);
        assert(front[i] == members[i]);
        assert forall|j: int| i < j < front.len() implies (#[trigger] front[j]).name
            != front[i].name by {
            assert(front[j] == members[j]);
        }
        lemma_member_found(front, i);
    }
}

proof fn lemma_session_names()
    ensures
        "country_code"@.len() == 12,
        "domain"@.len() == 6,
        "market_place_id"@.len() == 15,
        "locale"@.len() == 6,
        "device_registration"@.len() == 19,
        "authorization_code"@.len() == 18,
        "code_verifier"@.len() == 13,
{
    reveal_strlit("country_code");
    reveal_strlit("domain");
    reveal_strlit("market_place_id");
    reveal_strlit("locale");
    reveal_strlit("device_registration");
    reveal_strlit("authorization_code");
    reveal_strlit("code_verifier");
}

proof fn lemma_locale_round_trip(locale: LocaleView)
    ensures
        stored_locale(locale_json(locale)) == Some(locale),
{
    lemma_session_names();
    let members = locale_json(locale)->Object_0;
    lemma_member_found(members, 0);
    lemma_member_found(members, 1);
    lemma_member_found(members, 2);
}

proof fn lemma_registration_names()
    ensures
        "device_serial"@.len() == 13 && "device_serial"@[0] == 'd',
        "client_id"@.len() == 9 && "client_id"@[0] == 'c',
        "adp_token"@.len() == 9 && "adp_token"@[0] == 'a',
        "device_private_key"@.len() == 18,
        "access_token"@.len() == 12,
        "refresh_token"@.len() == 13 && "refresh_token"@[0] == 'r',
        "expires"@.len() == 7,
        "website_cookies"@.len() == 15,
        "store_authentication_cookie"@.len() == 27,
        "device_info"@.len() == 11,
        "customer_info"@.len() == 13 && "customer_info"@[0] == 'c',
{
    reveal_strlit("device_serial");
    reveal_strlit("client_id");
    reveal_strlit("adp_token");
    reveal_strlit("device_private_key");
    reveal_strlit("access_token");
    reveal_strlit("refresh_token");
    reveal_strlit("expires");
    reveal_strlit("website_cookies");
    reveal_strlit("store_authentication_cookie");
    reveal_strlit("device_info");
    reveal_strlit("customer_info");
}

proof fn lemma_registration_round_trip(r: RegistrationView, cookies: Seq<MemberValue>)
    requires
        cookie_members(cookies) == Some(r.website_cookies),
        i64::MIN <= r.expires <= i64::MAX,
    ensures
        stored_registration(registration_json(r, cookies)) == Some(r),
{
    lemma_registration_names();
    lemma_signed_text_round_trip(r.expires as i64);
    let members = registration_json(r, cookies)->Object_0;
    lemma_member_found(members, 0);
    lemma_member_found(members, 1);
    lemma_member_found(members, 2);
    lemma_member_found(members, 3);
    lemma_member_found(members, 4);
    lemma_member_found(members, 5);
    lemma_member_found(members, 6);
    lemma_member_found(members, 7);
    lemma_member_found(members, 8);
    lemma_member_found(members, 9);
    lemma_member_found(members, 10);
    assert(members[9].name == "device_info"@);
    assert(members[10].name == "customer_info"@);
}

/// A session that is stored and read back is the same session, whatever
/// the order in which its cookies were written.
pub proof fn lemma_session_round_trip(session: AuthView, cookies: Seq<MemberValue>)
    requires
        cookie_members(cookies) == Some(session.device_registration.website_cookies),
        i64::MIN <= session.device_registration.expires <= i64::MAX,
    ensures
        stored_session(session_json(session, cookies)) == Some(session),
        load_result(session_json(session, cookies)) == Ok::<AuthView, AppErrorView>(session),
{
    lemma_session_names();
    lemma_locale_round_trip(session.locale);
    lemma_registration_round_trip(session.device_registration, cookies);
    let members = session_json(session, cookies)->Object_0;
    lemma_member_found(members, 0);
    lemma_member_found(members, 1);
    lemma_member_found(members, 2);
    lemma_member_found(members, 3);
}

fn named_text(name: &str, value: &str) -> (m: (String, Json))
    ensures
        m.0@ == name@,
        m.1@ == JsonValue::Text(value@),
{
    (String::from_str(name), Json::text(value))
}

fn named(name: &str, value: Json) -> (m: (String, Json))
    ensures
        m.0@ == name@,
        m.1@ == value@,
{
    (String::from_str(name), value)
}

/// The stored form of a locale.
pub fn locale_to_json(locale: &Locale) -> (json: Json)
    ensures
        json@ == locale_json(locale@),
{
    let mut members: Vec<(String, Json)> = Vec::new();
    members.push(named_text("country_code", locale.country_code.as_str()));
    members.push(named_text("domain", locale.domain.as_str()));
    members.push(named_text("market_place_id", locale.market_place_id.as_str()));
    let json = Json::object(members);
    assert(json@->Object_0 =~= locale_json(locale@)->Object_0);
    json
}

/// The cookies as the members of an object, in the order in which the
/// map keeps them.
fn cookies_to_members(cookies: &TextMap<String>) -> (members: Vec<(String, Json)>)
    ensures
        cookie_members(members_view(members@)) == Some(text_values(cookies@)),
{
    let mut members: Vec<(String, Json)> = Vec::new();
    let n = cookies.len();
    let mut i: usize = 0;
    proof {
        cookies.lemma_keys_and_values();
        assert(cookies.keys().take(0) =~= Seq::<Seq<char>>::empty());
        assert(text_values(zip_map(cookies.keys().take(0), cookies.values().take(0)))
            =~= Map::<Seq<char>, Seq<char>>::empty());
    }
    while i < n
        invariant
            i <= n,
            n == cookies.keys().len(),
            n == cookies.values().len(),
            members@.len() == i,
            cookie_members(members_view(members@)) == Some(
                text_values(
                    zip_map(cookies.keys().take(i as int), cookies.values().take(i as int)),
                ),
            ),
        decreases n - i,
    {
        let ghost before = members_view(members@);
        let name = cookies.key_at(i);
        let value = cookies.value_at(i);
        members.push(named_text(name, value.as_str()));
        proof {
            let keys = cookies.keys().take(i + 1);
            let values = cookies.values().take(i + 1);
            assert(keys.drop_last() =~= cookies.keys().take(i as int));
            assert(values.drop_last() =~= cookies.values().take(i as int));
            let after = members_view(members@);
            assert(after.drop_last() =~= before);
            assert(after.last().name == keys.last());
            assert(after.last().value == JsonValue::Text(values.last()@));
            assert(text_values(zip_map(keys, values)) =~= text_values(
                zip_map(keys.drop_last(), values.drop_last()),
            ).insert(keys.last(), values.last()@));
        }
        i += 1;
    }
    proof {
        assert(cookies.keys().take(n as int) =~= cookies.keys());
        assert(cookies.values().take(n as int) =~= cookies.values());
    }
    members
}

/// The stored form of a registration.
pub fn registration_to_json(registration: &Registration) -> (json: Json)
    ensures
        stored_registration(json@) == Some(registration@),
        exists|cookies: Seq<MemberValue>|
            cookie_members(cookies) == Some(registration@.website_cookies) && json@
                == #[trigger] registration_json(registration@, cookies),
{
    let cookies = cookies_to_members(&registration.website_cookies);
    let ghost cookie_values = members_view(cookies@);
    let mut members: Vec<(String, Json)> = Vec::new();
    members.push(named_text("device_serial", registration.device_serial.as_str()));
    members.push(named_text("client_id", registration.client_id.as_str()));
    members.push(named_text("adp_token", registration.adp_token.as_str()));
    members.push(named_text("device_private_key", registration.device_private_key.as_str()));
    members.push(named_text("access_token", registration.access_token.as_str()));
    members.push(named_text("refresh_token", registration.refresh_token.as_str()));
    members.push(named("expires", Json::Number(i64_to_text(registration.expires))));
    members.push(named("website_cookies", Json::object(cookies)));
    members.push(
        named_text(
            "store_authentication_cookie",
            registration.store_authentication_cookie.as_str(),
        ),
    );
    members.push(named("device_info", registration.device_info.duplicate()));
    members.push(named("customer_info", registration.customer_info.duplicate()));
    let json = Json::object(members);
    proof {
        assert(json@->Object_0 =~= registration_json(registration@, cookie_values)->Object_0);
        lemma_registration_round_trip(registration@, cookie_values);
    }
    json
}

impl Auth {
    /// The stored form of the session: a JSON value from which
    /// `from_json` reads the same session back.
    pub fn to_json(&self) -> (json: Json)
        ensures
            stored_session(json@) == Some(self@),
            exists|cookies: Seq<MemberValue>|
                cookie_members(cookies) == Some(self@.device_registration.website_cookies)
                    && json@ == #[trigger] session_json(self@, cookies),
    {
        let registration = registration_to_json(&self.device_registration);
        let ghost cookies = choose|cookies: Seq<MemberValue>|
            cookie_members(cookies) == Some(self@.device_registration.website_cookies)
                && registration@ == #[trigger] registration_json(
                self.device_registration@,
                cookies,
            );
        let mut members: Vec<(String, Json)> = Vec::new();
        members.push(named("locale", locale_to_json(&self.locale)));
        members.push(named("device_registration", registration));
        members.push(named_text("authorization_code", self.authorization_code.as_str()));
        members.push(named_text("code_verifier", self.code_verifier.as_str()));
        let json = Json::object(members);
        proof {
            assert(json@->Object_0 =~= session_json(self@, cookies)->Object_0);
            lemma_session_round_trip(self@, cookies);
        }
        json
    }

    /// The session that a JSON value stores.
    ///
    /// Fails with `PersistenceError` when the value stores none: when a
    /// string or the expiry is missing or of another type, the cookies
    /// are no object of strings, or one of the two extensions is
    /// missing.
    pub fn from_json(json: &Json) -> (session: Result<Auth, AppError>)
        ensures
            session_view(session) == load_result(json@),
    {
        match read_session(json) {
            Some(session) => Ok(session),
            None => Err(AppError::new(ErrorKind::PersistenceError, "Stored session is malformed")),
        }
    }
}

/// The view of an optional string.
pub open spec fn option_text(found: Option<String>) -> Option<Seq<char>> {
    match found {
        Some(t) => Some(t@),
        None => None,
    }
}

fn read_text(json: Option<&Json>, key: &str) -> (text: Option<String>)
    ensures
        option_text(text) == text_at(or_null(json), key@),
{
    match json {
        Some(json) => match json.get(key) {
            Some(found) => match found.as_str() {
                Some(t) => Some(String::from_str(t)),
                None => None,
            },
            None => None,
        },
        None => None,
    }
}

fn read_member<'a>(json: Option<&'a Json>, key: &str) -> (found: Option<&'a Json>)
    ensures
        or_null(found) == or_null(json).index(key@),
        found is Some <==> or_null(json).has(key@),
{
    match json {
        Some(json) => json.get(key),
        None => None,
    }
}

fn read_locale(json: Option<&Json>) -> (locale: Option<Locale>)
    ensures
        match locale {
            Some(l) => stored_locale(or_null(json)) == Some(l@),
            None => stored_locale(or_null(json)) is None,
        },
{
    let country_code = match read_text(json, "country_code") {
        Some(t) => t,
        None => { return None; },
    };
    let domain = match read_text(json, "domain") {
        Some(t) => t,
        None => { return None; },
    };
    let market_place_id = match read_text(json, "market_place_id") {
        Some(t) => t,
        None => { return None; },
    };
    Some(Locale { country_code, domain, market_place_id })
}

fn read_number(json: Option<&Json>, key: &str) -> (number: Option<i64>)
    ensures
        number == number_at(or_null(json), key@),
{
    match read_member(json, key) {
        Some(Json::Number(text)) => parse_i64(text.as_str()),
        _ => None,
    }
}

fn read_cookie_members(members: &Vec<(String, Json)>) -> (cookies: Option<TextMap<String>>)
    ensures
        match cookies {
            Some(c) => cookie_members(members_view(members@)) == Some(text_values(c@)),
            None => cookie_members(members_view(members@)) is None,
        },
{
    let mut cookies: TextMap<String> = TextMap::new();
    let mut i: usize = 0;
    proof {
        assert(members_view(members@).take(0) =~= Seq::<MemberValue>::empty());
        assert(text_values(cookies@) =~= Map::<Seq<char>, Seq<char>>::empty());
    }
    while i < members.len()
        invariant
            i <= members.len(),
            cookie_members(members_view(members@).take(i as int)) == Some(text_values(cookies@)),
        decreases members.len() - i,
    {
        let ghost before = cookies@;
        proof {
            let upto = members_view(members@).take(i + 1);
            assert(upto.drop_last() =~= members_view(members@).take(i as int));
            assert(upto.last() == members_view(members@)[i as int]);
        }
        match members[i].1.as_str() {
            Some(value) => {
                cookies.insert(members[i].0.clone(), String::from_str(value));
                proof {
                    assert(text_values(cookies@) =~= text_values(before).insert(
                        members@[i as int].0@,
                        value@,
                    ));
                }
            },
            None => {
                proof {
                    lemma_cookie_members_prefix(members_view(members@), i + 1);
                }
                return None;
            },
        }
        i += 1;
    }
    proof {
        assert(members_view(members@).take(members@.len() as int) =~= members_view(members@));
    }
    Some(cookies)
}

/// Members of which a prefix stands for no cookies stand for none.
proof fn lemma_cookie_members_prefix(members: Seq<MemberValue>, k: int)
    requires
        0 <= k <= members.len(),
        cookie_members(members.take(k)) is None,
    ensures
        cookie_members(members) is None,
    decreases members.len() - k,
{
    if k == members.len() {
        assert(members.take(k) =~= members);
    } else {
        let longer = members.take(k + 1);
        assert(longer.drop_last() =~= members.take(k));
        lemma_cookie_members_prefix(members, k + 1);
    }
}

fn read_cookies(json: Option<&Json>, key: &str) -> (cookies: Option<TextMap<String>>)
    ensures
        match cookies {
            Some(c) => cookies_at(or_null(json), key@) == Some(text_values(c@)),
            None => cookies_at(or_null(json), key@) is None,
        },
{
    match read_member(json, key) {
        Some(Json::Object(members)) => {
            proof {
                crate::json::lemma_object_view(*members);
            }
            read_cookie_members(members)
        },
        _ => None,
    }
}

fn read_registration(json: Option<&Json>) -> (registration: Option<Registration>)
    ensures
        match registration {
            Some(r) => stored_registration(or_null(json)) == Some(r@),
            None => stored_registration(or_null(json)) is None,
        },
{
    let device_serial = match read_text(json, "device_serial") {
        Some(t) => t,
        None => { return None; },
    };
    let client_id = match read_text(json, "client_id") {
        Some(t) => t,
        None => { return None; },
    };
    let adp_token = match read_text(json, "adp_token") {
        Some(t) => t,
        None => { return None; },
    };
    let device_private_key = match read_text(json, "device_private_key") {
        Some(t) => t,
        None => { return None; },
    };
    let access_token = match read_text(json, "access_token") {
        Some(t) => t,
        None => { return None; },
    };
    let refresh_token = match read_text(json, "refresh_token") {
        Some(t) => t,
        None => { return None; },
    };
    let expires = match read_number(json, "expires") {
        Some(n) => n,
        None => { return None; },
    };
    let website_cookies = match read_cookies(json, "website_cookies") {
        Some(c) => c,
        None => { return None; },
    };
    let store_authentication_cookie = match read_text(json, "store_authentication_cookie") {
        Some(t) => t,
        None => { return None; },
    };
    let device_info = match read_member(json, "device_info") {
        Some(found) => found.duplicate(),
        None => { return None; },
    };
    let customer_info = match read_member(json, "customer_info") {
        Some(found) => found.duplicate(),
        None => { return None; },
    };
    Some(
        Registration {
            device_serial,
            client_id,
            adp_token,
            device_private_key,
            access_token,
            refresh_token,
            expires,
            website_cookies,
            store_authentication_cookie,
            device_info,
            customer_info,
        },
    )
}

fn read_session(json: &Json) -> (session: Option<Auth>)
    ensures
        match session {
            Some(s) => stored_session(json@) == Some(s@),
            None => stored_session(json@) is None,
        },
{
    let locale = match read_locale(json.get("locale")) {
        Some(l) => l,
        None => { return None; },
    };
    let device_registration = match read_registration(json.get("device_registration")) {
        Some(r) => r,
        None => { return None; },
    };
    let authorization_code = match read_text(Some(json), "authorization_code") {
        Some(t) => t,
        None => { return None; },
    };
    let code_verifier = match read_text(Some(json), "code_verifier") {
        Some(t) => t,
        None => { return None; },
    };
    Some(Auth { locale, device_registration, authorization_code, code_verifier })
}

} // verus!
