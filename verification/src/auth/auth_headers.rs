//! Signing of outgoing API requests.
//!
//! A request is signed over its canonical string: method, path,
//! timestamp, body and ADP token, one per line. The SHA-256 digest of that
//! string is signed with the device's RSA key, and the signature travels
//! in three headers.

use vstd::prelude::*;
use vstd::slice::slice_to_vec;
use vstd::string::*;
use vstd::utf8::*;
use crate::crypto::{
    rsa_sha256_sign, rsa_sha256_signature, sha256, sha256_digest, SignOutcome, SignOutcomeView,
};
use crate::encoding::{base64_standard_encode, base64_text, pairs_view};
use crate::error::{error_view, AppError, AppErrorView, ErrorKind};
use crate::system::{is_rfc3339_utc, now_rfc3339};
use crate::text::lemma_encode_utf8_concat;

verus! {

/// The canonical string of a request: method, path, timestamp, body and
/// ADP token, separated by line feeds.
pub open spec fn canonical_text(
    method: Seq<char>,
    path: Seq<char>,
    date: Seq<char>,
    body: Seq<char>,
    adp_token: Seq<char>,
) -> Seq<char> {
    method + seq!['\n'] + path + seq!['\n'] + date + seq!['\n'] + body + seq!['\n'] + adp_token
}

/// The bytes that are hashed for a request whose body is the UTF-8 text
/// `body`: the UTF-8 encoding of its canonical string.
pub open spec fn canonical_bytes(
    method: Seq<char>,
    path: Seq<char>,
    date: Seq<char>,
    body: Seq<u8>,
    adp_token: Seq<char>,
) -> Seq<u8> {
    encode_utf8(canonical_text(method, path, date, decode_utf8(body), adp_token))
}

/// The value of the signature header: the padded standard Base64 text of
/// the signature, a colon, and the timestamp that was signed.
pub open spec fn signature_header_text(signature: Seq<u8>, date: Seq<char>) -> Seq<char> {
    base64_text(false, true, signature) + seq![':'] + date
}

/// The view of the error for a key that cannot be read.
pub open spec fn invalid_key_error() -> AppErrorView {
    error_view(ErrorKind::InvalidPrivateKey, "Device private key is not a PKCS#1 PEM RSA key"@)
}

/// The view of the error for a failed RSA operation.
pub open spec fn signing_error() -> AppErrorView {
    error_view(ErrorKind::SigningFailure, "RSA signing failed"@)
}

/// The signature header value, or the error, that an outcome of the RSA
/// step leads to.
pub open spec fn signature_result(outcome: SignOutcomeView, date: Seq<char>) -> Result<
    Seq<char>,
    AppErrorView,
> {
    match outcome {
        SignOutcomeView::Signed(signature) => Ok(signature_header_text(signature, date)),
        SignOutcomeView::InvalidKey => Err(invalid_key_error()),
        SignOutcomeView::Failed => Err(signing_error()),
    }
}

/// The signature header value of a request signed at `date`.
pub open spec fn request_signature(
    method: Seq<char>,
    path: Seq<char>,
    body: Seq<u8>,
    adp_token: Seq<char>,
    device_private_key: Seq<char>,
    date: Seq<char>,
) -> Result<Seq<char>, AppErrorView> {
    signature_result(
        rsa_sha256_signature(
            device_private_key,
            sha256_digest(canonical_bytes(method, path, date, body, adp_token)),
        ),
        date,
    )
}

/// The three signing headers, by name, for a signature header value.
pub open spec fn header_pairs(adp_token: Seq<char>, signature: Seq<char>) -> Seq<
    (Seq<char>, Seq<char>),
> {
    seq![
        ("x-adp-token"@, adp_token),
        ("x-adp-alg"@, "SHA256withRSA:1.0"@),
        ("x-adp-signature"@, signature),
    ]
}

/// The signing headers of a request signed at `date`.
pub open spec fn request_headers(
    method: Seq<char>,
    path: Seq<char>,
    body: Seq<u8>,
    adp_token: Seq<char>,
    device_private_key: Seq<char>,
    date: Seq<char>,
) -> Result<Seq<(Seq<char>, Seq<char>)>, AppErrorView> {
    match request_signature(method, path, body, adp_token, device_private_key, date) {
        Ok(signature) => Ok(header_pairs(adp_token, signature)),
        Err(e) => Err(e),
    }
}

/// Whether `date` has the shape of a signing timestamp: an RFC 3339
/// timestamp in UTC with its offset `+00:00`, followed by a literal `Z`.
pub open spec fn is_signing_timestamp(date: Seq<char>) -> bool {
    exists|stamp: Seq<char>| #[trigger] is_rfc3339_utc(stamp) && date == stamp.push('Z')
}

/// The view of a result that holds a string or an error.
pub open spec fn signature_view(r: Result<String, AppError>) -> Result<Seq<char>, AppErrorView> {
    match r {
        Ok(s) => Ok(s@),
        Err(e) => Err(e@),
    }
}

/// The view of a result that holds header pairs or an error.
pub open spec fn headers_view(r: Result<Vec<(String, String)>, AppError>) -> Result<
    Seq<(Seq<char>, Seq<char>)>,
    AppErrorView,
> {
    match r {
        Ok(h) => Ok(pairs_view(h@)),
        Err(e) => Err(e@),
    }
}

/// A line feed is one byte in UTF-8.
proof fn lemma_line_feed_bytes()
    ensures
        encode_utf8(seq!['\n']) == seq![10u8],
{
    let s = seq!['\n'];
    assert(s.drop_first() =~= Seq::<char>::empty());
    assert(encode_utf8(s.drop_first()) =~= Seq::<u8>::empty());
    assert(s[0] as u32 == 10u32);
    assert(has_width_1_encoding(10u32)) by (bit_vector);
    assert(leading_byte_width_1(10u32) == 10u8) by (bit_vector);
    assert(encode_scalar(10u32) =~= seq![10u8]);
    assert(encode_utf8(s) =~= encode_scalar(s[0] as u32) + encode_utf8(s.drop_first()));
}

/// The canonical bytes are the encoded fields with a line feed between
/// them; a body that is valid UTF-8 stands for itself.
proof fn lemma_canonical_bytes(
    method: Seq<char>,
    path: Seq<char>,
    date: Seq<char>,
    body: Seq<u8>,
    adp_token: Seq<char>,
)
    requires
        valid_utf8(body),
    ensures
        canonical_bytes(method, path, date, body, adp_token) == encode_utf8(method) + seq![10u8]
            + encode_utf8(path) + seq![10u8] + encode_utf8(date) + seq![10u8] + body + seq![10u8]
            + encode_utf8(adp_token),
{
    let lf = seq!['\n'];
    let text = decode_utf8(body);
    lemma_line_feed_bytes();
    decode_utf8_encode_utf8(body);
    lemma_encode_utf8_concat(method, lf);
    lemma_encode_utf8_concat(method + lf, path);
    lemma_encode_utf8_concat(method + lf + path, lf);
    lemma_encode_utf8_concat(method + lf + path + lf, date);
    lemma_encode_utf8_concat(method + lf + path + lf + date, lf);
    lemma_encode_utf8_concat(method + lf + path + lf + date + lf, text);
    lemma_encode_utf8_concat(method + lf + path + lf + date + lf + text, lf);
    lemma_encode_utf8_concat(method + lf + path + lf + date + lf + text + lf, adp_token);
}

/// The bytes to hash for a request.
pub fn canonical_request(method: &str, path: &str, date: &str, body: &[u8], adp_token: &str) -> (bytes:
    Vec<u8>)
    requires
        valid_utf8(body@),
    ensures
        bytes@ == canonical_bytes(method@, path@, date@, body@, adp_token@),
{
    let mut bytes = slice_to_vec(method.as_bytes());
    bytes.push(10u8);
    bytes.extend_from_slice(path.as_bytes());
    bytes.push(10u8);
    bytes.extend_from_slice(date.as_bytes());
    bytes.push(10u8);
    bytes.extend_from_slice(body);
    bytes.push(10u8);
    bytes.extend_from_slice(adp_token.as_bytes());
    proof {
        lemma_canonical_bytes(method@, path@, date@, body@, adp_token@);
        assert(bytes@ =~= encode_utf8(method@) + seq![10u8] + encode_utf8(path@) + seq![10u8]
            + encode_utf8(date@) + seq![10u8] + body@ + seq![10u8] + encode_utf8(adp_token@));
    }
    bytes
}

/// The signature header value for an outcome of the RSA step.
pub fn signature_from_outcome(outcome: SignOutcome, date: &str) -> (value: Result<
    String,
    AppError,
>)
    ensures
        signature_view(value) == signature_result(outcome@, date@),
{
    match outcome {
        SignOutcome::Signed(signature) => {
            let mut value = base64_standard_encode(signature.as_slice());
            value.push(':');
            value.append(date);
            proof {
                assert(value@ =~= signature_header_text(signature@, date@));
            }
            Ok(value)
        },
        SignOutcome::InvalidKey => Err(
            AppError::new(
                ErrorKind::InvalidPrivateKey,
                "Device private key is not a PKCS#1 PEM RSA key",
            ),
        ),
        SignOutcome::Failed => Err(AppError::new(ErrorKind::SigningFailure, "RSA signing failed")),
    }
}

/// The signature header value of a request signed at `date` with the
/// device's private key, given as PKCS#1 PEM text.
///
/// Fails with `InvalidPrivateKey` when the key cannot be read and with
/// `SigningFailure` when the RSA step fails.
pub fn signature(
    method: &str,
    path: &str,
    body: &[u8],
    adp_token: &str,
    device_private_key: &str,
    date: &str,
) -> (value: Result<String, AppError>)
    requires
        valid_utf8(body@),
    ensures
        signature_view(value) == request_signature(
            method@,
            path@,
            body@,
            adp_token@,
            device_private_key@,
            date@,
        ),
{
    let data = canonical_request(method, path, date, body, adp_token);
    let hashed = sha256(data.as_slice());
    let outcome = rsa_sha256_sign(device_private_key, hashed.as_slice());
    signature_from_outcome(outcome, date)
}

/// The timestamp of a request made now: the current time as RFC 3339
/// text, followed by a literal `Z`.
pub fn signing_timestamp() -> (date: String)
    ensures
        is_signing_timestamp(date@),
{
    let mut date = now_rfc3339();
    let ghost stamp = date@;
    date.push('Z');
    proof {
        assert(is_rfc3339_utc(stamp) && date@ == stamp.push('Z'));
    }
    date
}

fn header(name: &str, value: &str) -> (h: (String, String))
    ensures
        h.0@ == name@,
        h.1@ == value@,
{
    (String::from_str(name), String::from_str(value))
}

/// The signing headers of a request signed at `date`, by name:
/// `x-adp-token`, `x-adp-alg` and `x-adp-signature`.
pub fn auth_headers_at(
    method: &str,
    path: &str,
    body: &[u8],
    adp_token: &str,
    device_private_key: &str,
    date: &str,
) -> (headers: Result<Vec<(String, String)>, AppError>)
    requires
        valid_utf8(body@),
    ensures
        headers_view(headers) == request_headers(
            method@,
            path@,
            body@,
            adp_token@,
            device_private_key@,
            date@,
        ),
{
    match signature(method, path, body, adp_token, device_private_key, date) {
        Ok(value) => {
            let mut headers: Vec<(String, String)> = Vec::new();
            headers.push(header("x-adp-token", adp_token));
            headers.push(header("x-adp-alg", "SHA256withRSA:1.0"));
            headers.push(header("x-adp-signature", value.as_str()));
            proof {
                assert(pairs_view(headers@) =~= header_pairs(adp_token@, value@));
            }
            Ok(headers)
        },
        Err(e) => Err(e),
    }
}

/// The signing headers of a request made now. The timestamp is read from
/// the clock, so the headers are those of `auth_headers_at` for some
/// signing timestamp.
pub fn auth_headers(
    method: &str,
    path: &str,
    body: &[u8],
    adp_token: &str,
    device_private_key: &str,
) -> (headers: Result<Vec<(String, String)>, AppError>)
    requires
        valid_utf8(body@),
    ensures
        exists|date: Seq<char>|
            is_signing_timestamp(date) && headers_view(headers) == #[trigger] request_headers(
                method@,
                path@,
                body@,
                adp_token@,
                device_private_key@,
                date,
            ),
{
    let date = signing_timestamp();
    auth_headers_at(method, path, body, adp_token, device_private_key, date.as_str())
}

} // verus!
