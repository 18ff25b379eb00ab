//! What only the running system can supply: randomness and the clock.

use vstd::prelude::*;

verus! {

/// Whether `c` is a lower-case hexadecimal digit.
pub open spec fn is_lower_hex(c: char) -> bool {
    ('0' <= c <= '9') || ('a' <= c <= 'f')
}

/// Whether `c` is an upper-case hexadecimal digit.
pub open spec fn is_upper_hex(c: char) -> bool {
    ('0' <= c <= '9') || ('A' <= c <= 'F')
}

/// Whether `i` is one of the four places of a hyphen in a hyphenated UUID.
pub open spec fn is_uuid_hyphen_index(i: int) -> bool {
    i == 8 || i == 13 || i == 18 || i == 23
}

/// The hyphenated lower-case form of a UUID: 36 characters, hyphens after
/// 8, 12, 16 and 20 hexadecimal digits.
pub open spec fn is_hyphenated_uuid(s: Seq<char>) -> bool {
    &&& s.len() == 36
    &&& forall|i: int|
        0 <= i < 36 ==> if is_uuid_hyphen_index(i) {
            #[trigger] s[i] == '-'
        } else {
            is_lower_hex(s[i])
        }
}

/// Whether `c` is a decimal digit.
pub open spec fn is_digit(c: char) -> bool {
    '0' <= c <= '9'
}

/// Whether `s` holds nothing but decimal digits.
pub open spec fn all_digits(s: Seq<char>) -> bool {
    forall|i: int| 0 <= i < s.len() ==> is_digit(#[trigger] s[i])
}

/// The year of a timestamp: four digits, or, beyond the year 9999, a
/// plus sign and five or six digits.
pub open spec fn is_year_text(s: Seq<char>) -> bool {
    ||| s.len() == 4 && all_digits(s)
    ||| (s.len() == 6 || s.len() == 7) && s[0] == '+' && all_digits(s.skip(1))
}

/// What follows the year in a timestamp: `-MM-DDTHH:MM:SS`.
pub open spec fn is_day_and_time_text(s: Seq<char>) -> bool {
    &&& s.len() == 15
    &&& s[0] == '-' && is_digit(s[1]) && is_digit(s[2])
    &&& s[3] == '-' && is_digit(s[4]) && is_digit(s[5])
    &&& s[6] == 'T' && is_digit(s[7]) && is_digit(s[8])
    &&& s[9] == ':' && is_digit(s[10]) && is_digit(s[11])
    &&& s[12] == ':' && is_digit(s[13]) && is_digit(s[14])
}

/// The fraction of a second in a timestamp: nothing, or a point and
/// three, six or nine digits.
pub open spec fn is_fraction_text(s: Seq<char>) -> bool {
    ||| s.len() == 0
    ||| (s.len() == 4 || s.len() == 7 || s.len() == 10) && s[0] == '.' && all_digits(s.skip(1))
}

/// The offset of UTC, written with sign, hours and minutes.
pub open spec fn utc_offset_text() -> Seq<char> {
    seq!['+', '0', '0', ':', '0', '0']
}

/// Whether `s` is an RFC 3339 timestamp in UTC with a numeric offset:
/// year, `-MM-DDTHH:MM:SS`, an optional fraction of a second, and
/// `+00:00`.
pub open spec fn is_rfc3339_utc(s: Seq<char>) -> bool {
    exists|year: Seq<char>, day_and_time: Seq<char>, fraction: Seq<char>|
        #![trigger is_year_text(year), is_day_and_time_text(day_and_time), is_fraction_text(fraction)]
        is_year_text(year) && is_day_and_time_text(day_and_time) && is_fraction_text(fraction)
            && s == year + day_and_time + fraction + utc_offset_text()
}

/// `rand::thread_rng().gen::<[u8; 32]>()`: 32 bytes from the thread's
/// random number generator. Nothing is known of them but their number.
#[verifier::external_body]
pub(crate) fn random_seed() -> (seed: Vec<u8>)
    ensures
        seed@.len() == 32,
{
    rand::Rng::gen::<[u8; 32]>(&mut rand::thread_rng()).to_vec()
}

/// `Uuid::new_v4().to_string()` of the `uuid` crate: a random UUID in
/// its hyphenated lower-case form.
#[verifier::external_body]
pub(crate) fn random_uuid() -> (text: String)
    ensures
        is_hyphenated_uuid(text@),
{
    uuid::Uuid::new_v4().to_string()
}

/// `Utc::now().to_rfc3339()` of the `chrono` crate: the current time as
/// RFC 3339 text. Which time it shows is not claimed, only its shape:
/// date and time in digits, a fraction of three, six or nine digits
/// where the time has one, and the offset `+00:00`.
#[verifier::external_body]
pub(crate) fn now_rfc3339() -> (text: String)
    ensures
        is_rfc3339_utc(text@),
{
    chrono::Utc::now().to_rfc3339()
}

/// `Utc::now().timestamp()` of the `chrono` crate: the current time in
/// seconds since the Unix epoch. Nothing is claimed of it.
#[verifier::external_body]
pub(crate) fn now_timestamp() -> (seconds: i64)
{
    chrono::Utc::now().timestamp()
}

} // verus!
