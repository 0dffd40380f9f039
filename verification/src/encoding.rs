//! Percent-encoding, Base64, UTF-8 and URL parsing, delegated to the
//! `urlencoding`, `base64` and `url` crates and to `std`.
use vstd::prelude::*;
use vstd::utf8::*;
use base64::Engine as _;
use rand::Rng as _;

verus! {

/// Bytes that `urlencoding::encode` leaves unescaped: ASCII alphanumerics and `-`, `.`, `_`, `~`.
pub open spec fn is_unreserved_byte(b: u8) -> bool {
    ||| (48 <= b && b <= 57)
    ||| (65 <= b && b <= 90)
    ||| (97 <= b && b <= 122)
    ||| b == 45
    ||| b == 46
    ||| b == 95
    ||| b == 126
}

/// Upper-case hexadecimal digit for a value below 16.
pub open spec fn hex_upper(d: int) -> char {
    if d < 10 {
        (48 + d) as char
    } else {
        (55 + d) as char
    }
}

/// Escape of one byte: the byte itself when unreserved, `%XY` otherwise.
pub open spec fn percent_encode_byte(b: u8) -> Seq<char> {
    if is_unreserved_byte(b) {
        seq![b as char]
    } else {
        seq!['%', hex_upper((b / 16) as int), hex_upper((b % 16) as int)]
    }
}

/// Escape of a byte sequence, byte by byte.
pub open spec fn percent_encode(bytes: Seq<u8>) -> Seq<char>
    decreases bytes.len(),
{
    if bytes.len() == 0 {
        Seq::empty()
    } else {
        percent_encode_byte(bytes[0]) + percent_encode(bytes.drop_first())
    }
}

/// Percent-encoding of the UTF-8 bytes of a string.
pub open spec fn url_encoded(s: Seq<char>) -> Seq<char> {
    percent_encode(encode_utf8(s))
}

/// Value of an ASCII hexadecimal digit (either case).
pub open spec fn is_hex_byte(b: u8) -> bool {
    (48 <= b && b <= 57) || (65 <= b && b <= 70) || (97 <= b && b <= 102)
}

pub open spec fn hex_value(b: u8) -> int {
    if 48 <= b && b <= 57 {
        b - 48
    } else if 65 <= b && b <= 70 {
        b - 55
    } else {
        b - 87
    }
}

/// Percent-decoding of bytes: every `%XY` with two hexadecimal digits becomes
/// the byte `XY`; every other byte, a lone `%` included, is kept.
pub open spec fn percent_decode(bytes: Seq<u8>) -> Seq<u8>
    decreases bytes.len(),
{
    if bytes.len() == 0 {
        Seq::empty()
    } else if bytes[0] == 37u8 && bytes.len() >= 3 && is_hex_byte(bytes[1]) && is_hex_byte(
        bytes[2],
    ) {
        seq![(hex_value(bytes[1]) * 16 + hex_value(bytes[2])) as u8] + percent_decode(
            bytes.skip(3),
        )
    } else {
        seq![bytes[0]] + percent_decode(bytes.drop_first())
    }
}

/// Calls `urlencoding::encode`, which percent-encodes every UTF-8 byte of the
/// input except ASCII alphanumerics and `-`, `.`, `_`, `~`, with upper-case
/// hexadecimal digits.
#[verifier::external_body]
pub fn url_encode(s: &str) -> (r: String)
    ensures
        r@ == url_encoded(s@),
{
    urlencoding::encode(s).into_owned()
}

/// Calls `urlencoding::decode`: the percent-decoded bytes of the input, read
/// as UTF-8; `None` when those bytes are not valid UTF-8.
#[verifier::external_body]
pub fn url_decode(s: &str) -> (r: Option<String>)
    ensures
        r is Some <==> valid_utf8(percent_decode(encode_utf8(s@))),
        r matches Some(v) ==> v@ == decode_utf8(percent_decode(encode_utf8(s@))),
{
    urlencoding::decode(s).ok().map(|v| v.into_owned())
}


/// The bytes of an ASCII text.
pub open spec fn ascii_bytes(s: Seq<char>) -> Seq<u8> {
    s.map_values(|c: char| c as u8)
}

/// What the standard engine decodes: it requires canonical padding and
/// rejects non-zero trailing bits, so it accepts exactly the canonical
/// encodings `base64_standard_encoded(b)` and gives back `b`; anything else
/// is not valid Base64.
pub open spec fn base64_standard_decoded(input: Seq<u8>) -> Option<Seq<u8>> {
    if exists|b: Seq<u8>| #[trigger] ascii_bytes(base64_standard_encoded(b)) == input {
        Some(choose|b: Seq<u8>| #[trigger] ascii_bytes(base64_standard_encoded(b)) == input)
    } else {
        None
    }
}

/// Calls `base64::engine::general_purpose::STANDARD.decode`.
#[verifier::external_body]
pub fn base64_decode(input: &[u8]) -> (r: Option<Vec<u8>>)
    ensures
        r is Some <==> base64_standard_decoded(input@) is Some,
        r matches Some(v) ==> base64_standard_decoded(input@) == Some(v@),
{
    base64::engine::general_purpose::STANDARD.decode(input).ok()
}

/// The character of a 6-bit value in the standard Base64 alphabet:
/// `A`-`Z`, `a`-`z`, `0`-`9`, `+`, `/`.
pub open spec fn base64_char(v: int) -> char {
    if v < 26 {
        (65 + v) as char
    } else if v < 52 {
        (71 + v) as char
    } else if v < 62 {
        (v - 4) as char
    } else if v == 62 {
        '+'
    } else {
        '/'
    }
}

/// Standard padded Base64 (RFC 4648): each group of three bytes becomes
/// four characters; a last group of one or two bytes is padded with `=`.
pub open spec fn base64_standard_encoded(input: Seq<u8>) -> Seq<char>
    decreases input.len(),
{
    if input.len() == 0 {
        Seq::empty()
    } else if input.len() == 1 {
        let a = input[0] as int;
        seq![base64_char(a / 4), base64_char((a % 4) * 16), '=', '=']
    } else if input.len() == 2 {
        let a = input[0] as int;
        let b = input[1] as int;
        seq![base64_char(a / 4), base64_char((a % 4) * 16 + b / 16), base64_char((b % 16) * 4), '=']
    } else {
        let a = input[0] as int;
        let b = input[1] as int;
        let c = input[2] as int;
        seq![
            base64_char(a / 4),
            base64_char((a % 4) * 16 + b / 16),
            base64_char((b % 16) * 4 + c / 64),
            base64_char(c % 64),
        ] + base64_standard_encoded(input.skip(3))
    }
}

/// Calls `base64::engine::general_purpose::STANDARD.encode`.
#[verifier::external_body]
pub fn base64_encode(input: &[u8]) -> (r: String)
    ensures
        r@ == base64_standard_encoded(input@),
{
    base64::engine::general_purpose::STANDARD.encode(input)
}

/// Bytes that the `application/x-www-form-urlencoded` serializer leaves
/// as they are: ASCII alphanumerics and `*`, `-`, `.`, `_`.
pub open spec fn is_form_unchanged_byte(b: u8) -> bool {
    ||| (48 <= b && b <= 57)
    ||| (65 <= b && b <= 90)
    ||| (97 <= b && b <= 122)
    ||| b == 42
    ||| b == 45
    ||| b == 46
    ||| b == 95
}

/// Form encoding of one byte: kept, a space as `+`, otherwise `%XY` with
/// upper-case hexadecimal digits.
pub open spec fn form_encode_byte(b: u8) -> Seq<char> {
    if is_form_unchanged_byte(b) {
        seq![b as char]
    } else if b == 32 {
        seq!['+']
    } else {
        seq!['%', hex_upper((b / 16) as int), hex_upper((b % 16) as int)]
    }
}

pub open spec fn form_encode_bytes(bytes: Seq<u8>) -> Seq<char>
    decreases bytes.len(),
{
    if bytes.len() == 0 {
        Seq::empty()
    } else {
        form_encode_byte(bytes[0]) + form_encode_bytes(bytes.drop_first())
    }
}

/// Form encoding of the UTF-8 bytes of a string.
pub open spec fn form_encoded(s: Seq<char>) -> Seq<char> {
    form_encode_bytes(encode_utf8(s))
}

/// `name=value`, both form-encoded.
pub open spec fn form_pair(p: (Seq<char>, Seq<char>)) -> Seq<char> {
    form_encoded(p.0) + "="@ + form_encoded(p.1)
}

/// Form-encoded pairs joined by `&`, in order.
pub open spec fn form_pairs_encoded(pairs: Seq<(Seq<char>, Seq<char>)>) -> Seq<char>
    decreases pairs.len(),
{
    if pairs.len() == 0 {
        Seq::empty()
    } else if pairs.len() == 1 {
        form_pair(pairs[0])
    } else {
        form_pairs_encoded(pairs.drop_last()) + "&"@ + form_pair(pairs.last())
    }
}

/// Views of string pairs.
pub open spec fn pair_views(pairs: Seq<(String, String)>) -> Seq<(Seq<char>, Seq<char>)> {
    pairs.map_values(|p: (String, String)| (p.0@, p.1@))
}

/// Calls `url::form_urlencoded::Serializer` on an empty string with
/// `extend_pairs`, then `finish`: each pair written `name=value` with both
/// sides form-encoded (ASCII alphanumerics and `*-._` kept, space as `+`,
/// other UTF-8 bytes as upper-case `%XY`), pairs separated by `&`.
#[verifier::external_body]
pub(crate) fn form_urlencode_pairs(pairs: &[(String, String)]) -> (r: String)
    ensures
        r@ == form_pairs_encoded(pair_views(pairs@)),
{
    url::form_urlencoded::Serializer::new(String::new()).extend_pairs(pairs.iter()).finish()
}

/// Calls `String::from_utf8`: the bytes read as UTF-8, `None` when they are
/// not valid UTF-8.
#[verifier::external_body]
pub fn utf8_string(bytes: Vec<u8>) -> (r: Option<String>)
    ensures
        r is Some <==> valid_utf8(bytes@),
        r matches Some(s) ==> s@ == decode_utf8(bytes@),
{
    String::from_utf8(bytes).ok()
}

/// View of an optional string.
pub open spec fn opt_string_view(o: Option<String>) -> Option<Seq<char>> {
    match o {
        Some(s) => Some(s@),
        None => None,
    }
}

/// The scheme and the host (if any) of a string parsed as an absolute URL by
/// the `url` crate, `None` when it does not parse.
pub uninterp spec fn parsed_scheme_and_host(s: Seq<char>) -> Option<(Seq<char>, Option<Seq<char>>)>;

/// Calls `url::Url::parse`, then `Url::scheme` and `Url::host_str`.
#[verifier::external_body]
pub fn url_scheme_and_host(s: &str) -> (r: Option<(String, Option<String>)>)
    ensures
        match r {
            Some((scheme, host)) => parsed_scheme_and_host(s@) == Some(
                (scheme@, opt_string_view(host)),
            ),
            None => parsed_scheme_and_host(s@) is None,
        },
{
    url::Url::parse(s).ok().map(|u| (u.scheme().to_string(), u.host_str().map(|h| h.to_string())))
}

/// Calls `rand::Rng::gen_range(0..bound)` on the thread-local generator: some
/// value below `bound`.
#[verifier::external_body]
pub fn random_below(bound: u8) -> (r: u8)
    requires
        bound > 0,
    ensures
        r < bound,
{
    rand::thread_rng().gen_range(0..bound)
}

} // verus!
