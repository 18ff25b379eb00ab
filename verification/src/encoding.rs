//! Text encodings of byte strings: hexadecimal, Base64 and
//! `application/x-www-form-urlencoded`.
//!
//! Each encoding is defined here as a spec function. The executable
//! encoders are the `hex`, `base64` and `url` crates; their wrappers are
//! trusted to compute these functions.

use vstd::prelude::*;
use vstd::string::*;
use vstd::utf8::*;

verus! {

/// The lower-case hexadecimal digit for a value below 16.
pub open spec fn hex_digit_lower(v: int) -> char {
    if v < 10 {
        ((48 + v) as u8) as char
    } else {
        ((87 + v) as u8) as char
    }
}

/// The upper-case hexadecimal digit for a value below 16.
pub open spec fn hex_digit_upper(v: int) -> char {
    if v < 10 {
        ((48 + v) as u8) as char
    } else {
        ((55 + v) as u8) as char
    }
}

/// Lower-case hexadecimal text of `bytes`: two digits per byte, high
/// nibble first.
pub open spec fn hex_text(bytes: Seq<u8>) -> Seq<char> {
    Seq::new(
        2 * bytes.len(),
        |i: int|
            if i % 2 == 0 {
                hex_digit_lower(bytes[i / 2] as int / 16)
            } else {
                hex_digit_lower(bytes[i / 2] as int % 16)
            },
    )
}

/// The Base64 symbol for a six-bit value, in the standard alphabet or in
/// the URL-safe one.
pub open spec fn base64_symbol(url_safe: bool, v: int) -> char {
    if v < 26 {
        ((65 + v) as u8) as char
    } else if v < 52 {
        ((71 + v) as u8) as char
    } else if v < 62 {
        ((v - 4) as u8) as char
    } else if v == 62 {
        if url_safe {
            '-'
        } else {
            '+'
        }
    } else {
        if url_safe {
            '_'
        } else {
            '/'
        }
    }
}

/// Whether `c` is a symbol of the chosen Base64 alphabet.
pub open spec fn is_base64_symbol(url_safe: bool, c: char) -> bool {
    ||| 'A' <= c <= 'Z'
    ||| 'a' <= c <= 'z'
    ||| '0' <= c <= '9'
    ||| (url_safe && (c == '-' || c == '_'))
    ||| (!url_safe && (c == '+' || c == '/'))
}

/// The padding after a final group of `symbols` symbols, which are two
/// or three.
pub open spec fn base64_padding(pad: bool, symbols: int) -> Seq<char> {
    if !pad {
        Seq::empty()
    } else if symbols == 2 {
        seq!['=', '=']
    } else {
        seq!['=']
    }
}

/// Base64 text of `bytes` (RFC 4648): every three bytes become four
/// symbols; a final group of one or two bytes becomes two or three
/// symbols, followed by `=` up to four when `pad` is set.
pub open spec fn base64_text(url_safe: bool, pad: bool, bytes: Seq<u8>) -> Seq<char>
    decreases bytes.len(),
{
    if bytes.len() == 0 {
        Seq::empty()
    } else if bytes.len() == 1 {
        seq![
            base64_symbol(url_safe, bytes[0] as int / 4),
            base64_symbol(url_safe, (bytes[0] as int % 4) * 16),
        ] + base64_padding(pad, 2)
    } else if bytes.len() == 2 {
        seq![
            base64_symbol(url_safe, bytes[0] as int / 4),
            base64_symbol(url_safe, (bytes[0] as int % 4) * 16 + bytes[1] as int / 16),
            base64_symbol(url_safe, (bytes[1] as int % 16) * 4),
        ] + base64_padding(pad, 3)
    } else {
        seq![
            base64_symbol(url_safe, bytes[0] as int / 4),
            base64_symbol(url_safe, (bytes[0] as int % 4) * 16 + bytes[1] as int / 16),
            base64_symbol(url_safe, (bytes[1] as int % 16) * 4 + bytes[2] as int / 64),
            base64_symbol(url_safe, bytes[2] as int % 64),
        ] + base64_text(url_safe, pad, bytes.skip(3))
    }
}

/// Whether a byte passes through form encoding unchanged: an ASCII letter
/// or digit, or one of `*`, `-`, `.` and `_`.
pub open spec fn form_unreserved(b: u8) -> bool {
    ||| 0x30 <= b <= 0x39
    ||| 0x41 <= b <= 0x5a
    ||| 0x61 <= b <= 0x7a
    ||| b == 0x2a
    ||| b == 0x2d
    ||| b == 0x2e
    ||| b == 0x5f
}

/// Form encoding of one byte: itself when unreserved, `+` for a space,
/// otherwise `%` and two upper-case hexadecimal digits.
pub open spec fn form_byte(b: u8) -> Seq<char> {
    if form_unreserved(b) {
        seq![b as char]
    } else if b == 0x20 {
        seq!['+']
    } else {
        seq!['%', hex_digit_upper(b as int / 16), hex_digit_upper(b as int % 16)]
    }
}

/// Form encoding of a byte string, byte by byte.
pub open spec fn form_bytes(bytes: Seq<u8>) -> Seq<char>
    decreases bytes.len(),
{
    if bytes.len() == 0 {
        Seq::empty()
    } else {
        form_bytes(bytes.drop_last()) + form_byte(bytes.last())
    }
}

/// Form encoding of a name or a value: that of its UTF-8 bytes.
pub open spec fn form_component(s: Seq<char>) -> Seq<char> {
    form_bytes(encode_utf8(s))
}

/// One `name=value` pair in form encoding.
pub open spec fn form_pair(pair: (Seq<char>, Seq<char>)) -> Seq<char> {
    form_component(pair.0) + seq!['='] + form_component(pair.1)
}

/// A query string in `application/x-www-form-urlencoded` syntax: the
/// encoded pairs in order, joined by `&`.
pub open spec fn form_query(pairs: Seq<(Seq<char>, Seq<char>)>) -> Seq<char>
    decreases pairs.len(),
{
    if pairs.len() == 0 {
        Seq::empty()
    } else if pairs.len() == 1 {
        form_pair(pairs[0])
    } else {
        form_query(pairs.drop_last()) + seq!['&'] + form_pair(pairs.last())
    }
}

/// The views of a vector of string pairs.
pub open spec fn pairs_view(pairs: Seq<(String, String)>) -> Seq<(Seq<char>, Seq<char>)> {
    Seq::new(pairs.len(), |i: int| (pairs[i].0@, pairs[i].1@))
}

/// `hex::encode`: two lower-case hexadecimal digits per byte.
#[verifier::external_body]
pub(crate) fn hex_encode(bytes: &[u8]) -> (text: String)
    ensures
        text@ == hex_text(bytes@),
{
    hex::encode(bytes)
}

/// `Engine::encode` of the `base64` crate on its `URL_SAFE_NO_PAD`
/// engine: RFC 4648 Base64 in the URL-safe alphabet, without padding.
#[verifier::external_body]
pub(crate) fn base64_url_encode(bytes: &[u8]) -> (text: String)
    ensures
        text@ == base64_text(true, false, bytes@),
{
    base64::Engine::encode(&base64::engine::general_purpose::URL_SAFE_NO_PAD, bytes)
}

/// `Engine::encode` of the `base64` crate on its `STANDARD` engine:
/// RFC 4648 Base64 in the standard alphabet, padded with `=`.
#[verifier::external_body]
pub(crate) fn base64_standard_encode(bytes: &[u8]) -> (text: String)
    ensures
        text@ == base64_text(false, true, bytes@),
{
    base64::Engine::encode(&base64::engine::general_purpose::STANDARD, bytes)
}

/// `url::form_urlencoded::Serializer` fed with `pairs` on an empty
/// target: the pairs in form encoding, joined by `&`.
#[verifier::external_body]
pub(crate) fn form_urlencode(pairs: &Vec<(String, String)>) -> (text: String)
    ensures
        text@ == form_query(pairs_view(pairs@)),
{
    url::form_urlencoded::Serializer::new(String::new()).extend_pairs(pairs).finish()
}

/// Unpadded Base64 text has four symbols for every three bytes, rounded
/// up.
pub proof fn lemma_base64_unpadded_len(url_safe: bool, bytes: Seq<u8>)
    ensures
        base64_text(url_safe, false, bytes).len() == (4 * bytes.len() + 2) / 3,
    decreases bytes.len(),
{
    if bytes.len() >= 3 {
        lemma_base64_unpadded_len(url_safe, bytes.skip(3));
    }
}

/// Every six-bit value maps to a symbol of its alphabet.
pub proof fn lemma_base64_symbol_in_alphabet(url_safe: bool, v: int)
    requires
        0 <= v < 64,
    ensures
        is_base64_symbol(url_safe, base64_symbol(url_safe, v)),
{
}

/// Unpadded Base64 text holds nothing but symbols of its alphabet.
pub proof fn lemma_base64_unpadded_alphabet(url_safe: bool, bytes: Seq<u8>)
    ensures
        forall|i: int|
            0 <= i < base64_text(url_safe, false, bytes).len() ==> is_base64_symbol(
                url_safe,
                #[trigger] base64_text(url_safe, false, bytes)[i],
            ),
    decreases bytes.len(),
{
    let text = base64_text(url_safe, false, bytes);
    if bytes.len() == 0 {
    } else {
        let b0 = bytes[0] as int;
        lemma_base64_symbol_in_alphabet(url_safe, b0 / 4);
        if bytes.len() == 1 {
            lemma_base64_symbol_in_alphabet(url_safe, (b0 % 4) * 16);
        } else {
            let b1 = bytes[1] as int;
            lemma_base64_symbol_in_alphabet(url_safe, (b0 % 4) * 16 + b1 / 16);
            if bytes.len() == 2 {
                lemma_base64_symbol_in_alphabet(url_safe, (b1 % 16) * 4);
            } else {
                let b2 = bytes[2] as int;
                lemma_base64_symbol_in_alphabet(url_safe, (b1 % 16) * 4 + b2 / 64);
                lemma_base64_symbol_in_alphabet(url_safe, b2 % 64);
                lemma_base64_unpadded_alphabet(url_safe, bytes.skip(3));
                let rest = base64_text(url_safe, false, bytes.skip(3));
                assert forall|i: int| 0 <= i < text.len() implies is_base64_symbol(
                    url_safe,
                    #[trigger] text[i],
                ) by {
                    if i >= 4 {
                        assert(text[i] == rest[i - 4]);
                    }
                }
            }
        }
    }
}

} // verus!
