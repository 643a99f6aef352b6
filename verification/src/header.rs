//! What the `http` crate decides about header values and header names, and
//! the byte classes those decisions rest on.
use vstd::prelude::*;
use vstd::string::StringSliceAdditionalSpecFns;

verus! {

/// A byte that `http` allows inside a header value: any byte from 32 up,
/// except DEL (127), and the horizontal tab.
pub open spec fn is_value_byte(b: u8) -> bool {
    (32 <= b && b != 127) || b == 9
}

/// A visible ASCII byte (32 to 126) or the horizontal tab.
pub open spec fn is_visible_ascii(b: u8) -> bool {
    (32 <= b && b < 127) || b == 9
}

/// Every byte of `s` may stand in a header value.
pub open spec fn all_value_bytes(s: Seq<u8>) -> bool {
    forall|i: int| 0 <= i < s.len() ==> #[trigger] is_value_byte(s[i])
}

/// Every byte of `s` is visible ASCII (or a tab).
pub open spec fn all_visible_ascii(s: Seq<u8>) -> bool {
    forall|i: int| 0 <= i < s.len() ==> #[trigger] is_visible_ascii(s[i])
}

/// Checks `src` the way `http::HeaderValue::from_bytes` does, by calling it.
///
/// Trusted: `HeaderValue::from_bytes` accepts its argument exactly when every
/// byte is a value byte (its private `is_valid`: `b >= 32 && b != 127 || b == b'\t'`).
#[verifier::external_body]
pub(crate) fn header_value_accepts(src: &[u8]) -> (ok: bool)
    ensures
        ok == all_value_bytes(src@),
{
    http::HeaderValue::from_bytes(src).is_ok()
}

/// Builds a header value from a static string with `http::HeaderValue::from_static`
/// and hands back its bytes.
///
/// Trusted: `HeaderValue::from_static` panics unless every byte is visible
/// ASCII (its private `is_visible_ascii`), which `requires` rules out, and
/// otherwise keeps the string's bytes unchanged.
#[verifier::external_body]
pub(crate) fn header_value_from_static(src: &'static str) -> (r: Vec<u8>)
    requires
        all_visible_ascii(src.spec_bytes()),
    ensures
        r@ == src.spec_bytes(),
{
    http::HeaderValue::from_static(src).as_bytes().to_vec()
}

/// The decimal digits of `n` as ASCII bytes, most significant first, with no
/// leading zeros (`0` is the single digit `"0"`).
pub open spec fn decimal_digits(n: nat) -> Seq<u8>
    decreases n,
{
    if n < 10 {
        seq![(48 + n) as u8]
    } else {
        decimal_digits(n / 10).push((48 + n % 10) as u8)
    }
}

/// The decimal text of `n`: a `-` before the digits of its magnitude when it
/// is negative.
pub open spec fn signed_decimal(n: int) -> Seq<u8> {
    if n < 0 {
        seq![45u8] + decimal_digits((-n) as nat)
    } else {
        decimal_digits(n as nat)
    }
}

/// Renders `n` with `From<u64> for http::HeaderValue` and hands back the bytes.
///
/// Trusted: that impl writes `n` in decimal with `itoa`: its digits, most
/// significant first, without leading zeros.
#[verifier::external_body]
pub(crate) fn header_value_from_u64(n: u64) -> (r: Vec<u8>)
    ensures
        r@ == decimal_digits(n as nat),
{
    http::HeaderValue::from(n).as_bytes().to_vec()
}

/// Renders `n` with `From<i64> for http::HeaderValue` and hands back the bytes.
///
/// Trusted: that impl writes `n` in decimal with `itoa`: a minus sign when `n`
/// is negative, then the digits of its magnitude without leading zeros.
#[verifier::external_body]
pub(crate) fn header_value_from_i64(n: i64) -> (r: Vec<u8>)
    ensures
        r@ == signed_decimal(n as int),
{
    http::HeaderValue::from(n).as_bytes().to_vec()
}

/// What `http`'s table of header-name characters makes of a byte: a token
/// character stays as it is, except that an upper-case letter becomes lower
/// case; any other byte maps to 0, which marks it as not allowed.
pub open spec fn header_name_char(b: u8) -> u8 {
    if 65 <= b <= 90 {
        (b + 32) as u8
    } else if (97 <= b <= 122) || (48 <= b <= 57) || b == 33 || (35 <= b <= 39) || b == 42 || b
        == 43 || b == 45 || b == 46 || (94 <= b <= 96) || b == 124 || b == 126 {
        b
    } else {
        0
    }
}

/// The longest header name that `http` accepts.
pub open spec fn max_header_name_len() -> nat {
    65535
}

/// `http::HeaderName::from_bytes` accepts `src`: it is not empty, not too
/// long, and every byte is a token character.
pub open spec fn is_header_name(src: Seq<u8>) -> bool {
    &&& 0 < src.len() <= max_header_name_len()
    &&& forall|i: int| 0 <= i < src.len() ==> #[trigger] header_name_char(src[i]) != 0
}

/// The name that `http::HeaderName::from_bytes` makes of `src`: the same
/// bytes, lower-cased.
pub open spec fn normalized_header_name(src: Seq<u8>) -> Seq<u8> {
    src.map_values(|b: u8| header_name_char(b))
}

/// Parses a header name with `http::HeaderName::from_bytes` and hands back
/// its bytes.
///
/// Trusted: `from_bytes` accepts exactly the non-empty inputs of at most
/// 65535 bytes whose every byte its `HEADER_CHARS` table maps to a non-zero
/// byte, and the name it makes is the input mapped through that table.
#[verifier::external_body]
pub(crate) fn header_name_from_bytes(src: &[u8]) -> (r: Option<Vec<u8>>)
    ensures
        r is Some <==> is_header_name(src@),
        r matches Some(v) ==> v@ == normalized_header_name(src@),
{
    match http::HeaderName::from_bytes(src) {
        Ok(name) => Some(name.as_str().as_bytes().to_vec()),
        Err(_) => None,
    }
}

/// A hexadecimal digit, in lower case.
pub open spec fn hex_digit(d: int) -> char {
    if d < 10 {
        (48 + d) as char
    } else {
        (87 + d) as char
    }
}

/// A byte in lower-case hexadecimal, without leading zeros.
pub open spec fn lower_hex(b: u8) -> Seq<char> {
    if b < 16 {
        seq![hex_digit(b as int)]
    } else {
        seq![hex_digit(b as int / 16), hex_digit(b as int % 16)]
    }
}

/// How `http`'s `Debug` writes one byte of a header value: `"` as `\"`, a
/// visible ASCII byte (or tab) as itself, any other byte as `\x` and its
/// hexadecimal digits.
pub open spec fn debug_escape(b: u8) -> Seq<char> {
    if b == 34 {
        seq!['\\', '"']
    } else if is_visible_ascii(b) {
        seq![b as char]
    } else {
        seq!['\\', 'x'] + lower_hex(b)
    }
}

/// The escaped bytes of a header value, one after another.
pub open spec fn debug_escaped(bytes: Seq<u8>) -> Seq<char>
    decreases bytes.len(),
{
    if bytes.len() == 0 {
        Seq::empty()
    } else {
        debug_escape(bytes[0]) + debug_escaped(bytes.drop_first())
    }
}

/// The text that `http`'s `Debug` impl of `HeaderValue` writes: `Sensitive`
/// for a sensitive value, else the escaped bytes between double quotes.
pub open spec fn header_value_debug_text(bytes: Seq<u8>, sensitive: bool) -> Seq<char> {
    if sensitive {
        seq!['S', 'e', 'n', 's', 'i', 't', 'i', 'v', 'e']
    } else {
        seq!['"'] + debug_escaped(bytes) + seq!['"']
    }
}

/// Formats a header value with `http`'s `Debug` impl of `HeaderValue`.
///
/// Trusted: that impl writes `Sensitive` for a sensitive value; otherwise a
/// double quote, each byte as `debug_escape` gives it (it writes runs of
/// visible bytes as they are, `\"` for a quote and `\x{:x}` for any other byte),
/// and a closing double quote. `from_bytes` cannot fail here, since
/// `requires` holds the bytes to what it accepts.
#[verifier::external_body]
pub(crate) fn header_value_debug(bytes: &[u8], sensitive: bool) -> (r: String)
    requires
        all_value_bytes(bytes@),
    ensures
        r@ == header_value_debug_text(bytes@, sensitive),
{
    let mut value = http::HeaderValue::from_bytes(bytes).unwrap();
    value.set_sensitive(sensitive);
    format!("{:?}", value)
}

} // verus!
