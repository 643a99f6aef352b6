//! What holds of the text of metadata values across calls: which strings and
//! bytes the constructors accept, what the readers give back, and how binary
//! values relate to their base64 text.
use vstd::prelude::*;
use vstd::string::StringSliceAdditionalSpecFns;
use crate::encoding::{
    Ascii, Binary, InvalidMetadataValue, all_metadata_bytes, all_visible_chars, is_metadata_byte,
    is_visible_char, InvalidMetadataValueBytes, ValueEncoding, base64_padded_text,
    base64_padding, base64_text,
};
use crate::header::{
    debug_escape, debug_escaped, decimal_digits, header_name_char, hex_digit, signed_decimal,
};
use crate::key::{InvalidMetadataKey, MetadataKey};
use crate::shared::bytes_contents;
use crate::value::{AsciiMetadataValue, BinaryMetadataValue, MetadataValue, ToStrError};

verus! {

/// `from_str` accepts exactly the strings whose every byte lies in 32..=126,
/// and then keeps those bytes.
pub proof fn law_from_str_accepts_visible_ascii(
    s: &str,
    r: Result<AsciiMetadataValue, InvalidMetadataValue>,
)
    requires
        call_ensures(MetadataValue::<Ascii>::from_str, (s,), r),
    ensures
        r is Ok <==> (forall|i: int|
            0 <= i < s.spec_bytes().len() ==> 32 <= #[trigger] s.spec_bytes()[i] <= 126),
        r matches Ok(v) ==> v@.bytes == s.spec_bytes() && !v@.sensitive,
{
    lemma_visible_chars_are_bytes_32_to_126(s.spec_bytes());
}

/// `try_from_bytes` accepts exactly the byte strings whose every byte is at
/// least 32 and not 127, and then keeps those bytes.
pub proof fn law_try_from_bytes_accepts_metadata_bytes(
    src: &[u8],
    r: Result<AsciiMetadataValue, InvalidMetadataValue>,
)
    requires
        call_ensures(MetadataValue::<Ascii>::try_from_bytes, (src,), r),
    ensures
        r is Ok <==> (forall|i: int| 0 <= i < src@.len() ==> 32 <= #[trigger] src@[i] && src@[i] != 127),
        r matches Ok(v) ==> v@.bytes == src@ && !v@.sensitive,
{
    let b = src@;
    if all_metadata_bytes(b) {
        assert forall|i: int| 0 <= i < b.len() implies 32 <= #[trigger] b[i] && b[i] != 127 by {
            assert(is_metadata_byte(b[i]));
        }
    }
    if forall|i: int| 0 <= i < b.len() ==> 32 <= #[trigger] b[i] && b[i] != 127 {
        assert forall|i: int| 0 <= i < b.len() implies #[trigger] is_metadata_byte(b[i]) by {
            assert(32 <= b[i] && b[i] != 127);
        }
    }
}

/// `to_str` succeeds exactly on the values whose every byte lies in 32..=126,
/// and the string it gives holds those bytes.
pub proof fn law_to_str_reads_visible_ascii<'a>(
    v: &'a AsciiMetadataValue,
    r: Result<&'a str, ToStrError>,
)
    requires
        call_ensures(MetadataValue::<Ascii>::to_str, (v,), r),
    ensures
        r is Ok <==> (forall|i: int| 0 <= i < v@.bytes.len() ==> 32 <= #[trigger] v@.bytes[i] <= 126),
        r matches Ok(t) ==> t.spec_bytes() == v@.bytes,
{
    lemma_visible_chars_are_bytes_32_to_126(v@.bytes);
}

/// A byte string is made of visible characters exactly when every byte lies
/// in 32..=126.
pub proof fn lemma_visible_chars_are_bytes_32_to_126(b: Seq<u8>)
    ensures
        all_visible_chars(b) <==> (forall|i: int| 0 <= i < b.len() ==> 32 <= #[trigger] b[i] <= 126),
{
    if all_visible_chars(b) {
        assert forall|i: int| 0 <= i < b.len() implies 32 <= #[trigger] b[i] <= 126 by {
            assert(is_visible_char(b[i]));
        }
    }
    if forall|i: int| 0 <= i < b.len() ==> 32 <= #[trigger] b[i] <= 126 {
        assert forall|i: int| 0 <= i < b.len() implies #[trigger] is_visible_char(b[i]) by {
            assert(32 <= b[i] <= 126);
        }
    }
}

/// A binary value is empty exactly when every byte of its text is `=`,
/// whether or not the text decodes.
pub proof fn law_binary_empty_iff_all_padding(v: BinaryMetadataValue, e: bool)
    requires
        call_ensures(MetadataValue::<Binary>::is_empty, (&v,), e),
    ensures
        e <==> (forall|i: int| 0 <= i < v@.bytes.len() ==> #[trigger] v@.bytes[i] == 61u8),
{
}

/// A value that `from_shared` accepted always converts back with `to_bytes`.
pub proof fn law_accepted_value_decodes<VE: ValueEncoding>(
    src: bytes::Bytes,
    made: Result<MetadataValue<VE>, InvalidMetadataValueBytes>,
    v: MetadataValue<VE>,
    back: Result<bytes::Bytes, InvalidMetadataValueBytes>,
)
    requires
        call_ensures(MetadataValue::<VE>::from_shared, (src,), made),
        made matches Ok(w) && w == v,
        call_ensures(MetadataValue::<VE>::to_bytes, (&v,), back),
    ensures
        back is Ok,
{
    VE::lemma_accepted_text_decodes(bytes_contents(src));
}

/// The length of base64 text, modulo four: nothing is left over after whole
/// groups of three bytes, and one or two left-over bytes give two or three
/// characters.
pub proof fn lemma_base64_text_length(data: Seq<u8>)
    ensures
        base64_text(data).len() % 4 == (if data.len() % 3 == 0 {
            0int
        } else if data.len() % 3 == 1 {
            2int
        } else {
            3int
        }),
    decreases data.len(),
{
    if data.len() >= 3 {
        lemma_base64_text_length(data.skip(3));
    }
}

/// The base64 text of any data, padded with `=` up to a multiple of four
/// characters (or not padded at all), is accepted by `from_shared`, and
/// `to_bytes` decodes the value it makes back to that data.
pub proof fn law_padded_base64_round_trip(
    data: Seq<u8>,
    pad: Seq<u8>,
    src: bytes::Bytes,
    made: Result<BinaryMetadataValue, InvalidMetadataValueBytes>,
    back: Result<bytes::Bytes, InvalidMetadataValueBytes>,
)
    requires
        pad.len() <= 2,
        forall|i: int| 0 <= i < pad.len() ==> #[trigger] pad[i] == 61u8,
        (base64_text(data).len() + pad.len()) % 4 == 0 || pad.len() == 0,
        bytes_contents(src) == base64_text(data) + pad,
        call_ensures(MetadataValue::<Binary>::from_shared, (src,), made),
    ensures
        made is Ok,
        made matches Ok(v) && (call_ensures(MetadataValue::<Binary>::to_bytes, (&v,), back)
            ==> (back matches Ok(b) && bytes_contents(b) == data)),
{
    if pad.len() == 0 {
        assert(base64_text(data) + pad =~= base64_text(data));
        assert(Binary::is_text_of(bytes_contents(src), data));
    } else {
        lemma_base64_text_length(data);
        assert(pad.len() == base64_padding(data));
        assert(pad =~= Seq::new(base64_padding(data), |i: int| 61u8));
        assert(bytes_contents(src) == base64_padded_text(data));
        assert(Binary::is_text_of(bytes_contents(src), data));
    }
}

/// The number that a string of decimal digits stands for, read most
/// significant digit first.
pub open spec fn digits_value(s: Seq<u8>) -> int
    decreases s.len(),
{
    if s.len() == 0 {
        0
    } else {
        digits_value(s.drop_last()) * 10 + (s.last() - 48)
    }
}

/// `digits` is the decimal text of the natural number `m`: at least one
/// digit, no leading zero unless the number is zero, and the digits read as
/// `m`.
pub open spec fn is_digit_text(digits: Seq<u8>, m: int) -> bool {
    &&& digits.len() > 0
    &&& forall|i: int| 0 <= i < digits.len() ==> 48 <= #[trigger] digits[i] <= 57
    &&& (digits[0] == 48u8 ==> digits.len() == 1)
    &&& digits_value(digits) == m
}

/// `s` is the usual decimal text of `n`: a `-` first exactly when `n` is
/// negative, then the decimal text of its magnitude.
pub open spec fn reads_as_decimal(s: Seq<u8>, n: int) -> bool {
    if n < 0 {
        s.len() > 0 && s[0] == 45u8 && is_digit_text(s.drop_first(), -n)
    } else {
        is_digit_text(s, n)
    }
}

/// The decimal digits of a number read back as that number, with no leading
/// zero.
pub proof fn lemma_decimal_digits_read_back(n: nat)
    ensures
        reads_as_decimal(decimal_digits(n), n as int),
        n > 0 ==> decimal_digits(n)[0] != 48u8,
    decreases n,
{
    let d = decimal_digits(n);
    if n >= 10 {
        lemma_decimal_digits_read_back(n / 10);
        let p = decimal_digits(n / 10);
        let last = (48 + n % 10) as u8;
        assert(0 <= n % 10 < 10);
        assert(last == 48 + n % 10);
        assert(d == p.push(last));
        assert(d.drop_last() =~= p);
        assert(d.last() == last);
        assert(d[0] == p[0]);
        vstd::arithmetic::div_mod::lemma_fundamental_div_mod(n as int, 10);
        assert(digits_value(d) == digits_value(p) * 10 + (last - 48));
        assert(digits_value(d) == n);
        assert forall|i: int| 0 <= i < d.len() implies 48 <= #[trigger] d[i] <= 57 by {
            if i < p.len() {
                assert(d[i] == p[i]);
            } else {
                assert(d[i] == last);
            }
        }
    } else {
        let last = (48 + n) as u8;
        assert(last == 48 + n);
        assert(d =~= seq![last]);
        assert(d.drop_last() =~= Seq::<u8>::empty());
        assert(digits_value(d.drop_last()) == 0);
        assert(digits_value(d) == n);
    }
}

/// The signed decimal text of a number reads back as that number.
pub proof fn lemma_signed_decimal_read_back(n: int)
    ensures
        reads_as_decimal(signed_decimal(n), n),
{
    if n < 0 {
        lemma_decimal_digits_read_back((-n) as nat);
        let s = signed_decimal(n);
        let d = decimal_digits((-n) as nat);
        assert(s.drop_first() =~= d);
        assert(s[0] == 45u8);
    } else {
        lemma_decimal_digits_read_back(n as nat);
    }
}

/// A `u16` becomes the value holding its decimal text.
pub proof fn law_from_u16_is_decimal(n: u16, r: AsciiMetadataValue)
    requires
        call_ensures(<MetadataValue<Ascii> as From<u16>>::from, (n,), r),
    ensures
        reads_as_decimal(r@.bytes, n as int),
        !r@.sensitive,
{
    lemma_decimal_digits_read_back(n as nat);
}

/// An `i16` becomes the value holding its decimal text.
pub proof fn law_from_i16_is_decimal(n: i16, r: AsciiMetadataValue)
    requires
        call_ensures(<MetadataValue<Ascii> as From<i16>>::from, (n,), r),
    ensures
        reads_as_decimal(r@.bytes, n as int),
        !r@.sensitive,
{
    lemma_signed_decimal_read_back(n as int);
}

/// A `u32` becomes the value holding its decimal text.
pub proof fn law_from_u32_is_decimal(n: u32, r: AsciiMetadataValue)
    requires
        call_ensures(<MetadataValue<Ascii> as From<u32>>::from, (n,), r),
    ensures
        reads_as_decimal(r@.bytes, n as int),
        !r@.sensitive,
{
    lemma_decimal_digits_read_back(n as nat);
}

/// An `i32` becomes the value holding its decimal text.
pub proof fn law_from_i32_is_decimal(n: i32, r: AsciiMetadataValue)
    requires
        call_ensures(<MetadataValue<Ascii> as From<i32>>::from, (n,), r),
    ensures
        reads_as_decimal(r@.bytes, n as int),
        !r@.sensitive,
{
    lemma_signed_decimal_read_back(n as int);
}

/// A `u64` becomes the value holding its decimal text.
pub proof fn law_from_u64_is_decimal(n: u64, r: AsciiMetadataValue)
    requires
        call_ensures(<MetadataValue<Ascii> as From<u64>>::from, (n,), r),
    ensures
        reads_as_decimal(r@.bytes, n as int),
        !r@.sensitive,
{
    lemma_decimal_digits_read_back(n as nat);
}

/// An `i64` becomes the value holding its decimal text.
pub proof fn law_from_i64_is_decimal(n: i64, r: AsciiMetadataValue)
    requires
        call_ensures(<MetadataValue<Ascii> as From<i64>>::from, (n,), r),
    ensures
        reads_as_decimal(r@.bytes, n as int),
        !r@.sensitive,
{
    lemma_signed_decimal_read_back(n as int);
}

/// A `usize` becomes the value holding its decimal text.
pub proof fn law_from_usize_is_decimal(n: usize, r: AsciiMetadataValue)
    requires
        call_ensures(<MetadataValue<Ascii> as From<usize>>::from, (n,), r),
    ensures
        reads_as_decimal(r@.bytes, n as int),
        !r@.sensitive,
{
    lemma_decimal_digits_read_back(n as nat);
}

/// An `isize` becomes the value holding its decimal text.
pub proof fn law_from_isize_is_decimal(n: isize, r: AsciiMetadataValue)
    requires
        call_ensures(<MetadataValue<Ascii> as From<isize>>::from, (n,), r),
    ensures
        reads_as_decimal(r@.bytes, n as int),
        !r@.sensitive,
{
    lemma_signed_decimal_read_back(n as int);
}

/// A metadata key is the name it was made from with upper-case letters made
/// lower case; a binary key ends in `-bin` and an ASCII key does not.
pub proof fn law_keys_are_lower_case_names<VE: ValueEncoding>(
    src: &[u8],
    r: Result<MetadataKey<VE>, InvalidMetadataKey>,
    ascii: Result<MetadataKey<Ascii>, InvalidMetadataKey>,
    binary: Result<MetadataKey<Binary>, InvalidMetadataKey>,
)
    requires
        call_ensures(MetadataKey::<VE>::from_bytes, (src,), r),
        call_ensures(MetadataKey::<Ascii>::from_bytes, (src,), ascii),
        call_ensures(MetadataKey::<Binary>::from_bytes, (src,), binary),
    ensures
        r matches Ok(k) ==> k@.len() == src@.len() && 0 < k@.len() && forall|i: int|
            0 <= i < k@.len() ==> (65 <= src@[i] <= 90 ==> #[trigger] k@[i] == src@[i] + 32) && (!(65
                <= src@[i] <= 90) ==> k@[i] == src@[i] && k@[i] != 0),
        binary matches Ok(k) ==> k@.len() >= 4 && k@.subrange(k@.len() - 4, k@.len() as int)
            == seq![45u8, 98u8, 105u8, 110u8],
        ascii matches Ok(k) ==> !(k@.len() >= 4 && k@.subrange(k@.len() - 4, k@.len() as int)
            == seq![45u8, 98u8, 105u8, 110u8]),
        ascii is Ok || binary is Ok || r is Err,
{
    if r is Ok {
        let k = r->Ok_0;
        assert forall|i: int| 0 <= i < k@.len() implies (65 <= src@[i] <= 90 ==> #[trigger] k@[i]
            == src@[i] + 32) && (!(65 <= src@[i] <= 90) ==> k@[i] == src@[i] && k@[i] != 0) by {
            assert(header_name_char(src@[i]) != 0);
        }
    }
}

/// The escaped text of two byte strings one after the other is the escaped
/// text of the first, then that of the second.
pub proof fn lemma_debug_escaped_concat(p: Seq<u8>, q: Seq<u8>)
    ensures
        debug_escaped(p + q) == debug_escaped(p) + debug_escaped(q),
    decreases p.len(),
{
    if p.len() == 0 {
        assert(p + q =~= q);
        assert(debug_escaped(p) + debug_escaped(q) =~= debug_escaped(q));
    } else {
        lemma_debug_escaped_concat(p.drop_first(), q);
        assert((p + q).drop_first() =~= p.drop_first() + q);
        assert((p + q)[0] == p[0]);
        assert(debug_escape(p[0]) + (debug_escaped(p.drop_first()) + debug_escaped(q))
            =~= (debug_escape(p[0]) + debug_escaped(p.drop_first())) + debug_escaped(q));
    }
}

/// Bytes that need no escaping are written as they are.
proof fn lemma_debug_escaped_plain(b: Seq<u8>)
    requires
        forall|i: int|
            0 <= i < b.len() ==> (32 <= #[trigger] b[i] <= 126 && b[i] != 34) || b[i] == 9,
    ensures
        debug_escaped(b) == b.map_values(|c: u8| c as char),
    decreases b.len(),
{
    if b.len() > 0 {
        lemma_debug_escaped_plain(b.drop_first());
        assert(b.drop_first().map_values(|c: u8| c as char) =~= b.map_values(
            |c: u8| c as char,
        ).drop_first());
        assert(32 <= b[0] <= 126 || b[0] == 9);
        assert(debug_escape(b[0]) =~= seq![b[0] as char]);
        assert(debug_escaped(b) =~= b.map_values(|c: u8| c as char));
    } else {
        assert(debug_escaped(b) =~= b.map_values(|c: u8| c as char));
    }
}

/// A sensitive value is written as `Sensitive`; any other value is written
/// between double quotes, with the bytes that need no escaping (visible ASCII
/// other than `"`, and tab) as they are.
pub proof fn law_debug_text_of_plain_values<VE: ValueEncoding>(v: MetadataValue<VE>, r: String)
    requires
        call_ensures(MetadataValue::<VE>::debug_text, (&v,), r),
    ensures
        v@.sensitive ==> r@ == seq!['S', 'e', 'n', 's', 'i', 't', 'i', 'v', 'e'],
        !v@.sensitive && (forall|i: int|
            0 <= i < v@.bytes.len() ==> (32 <= #[trigger] v@.bytes[i] <= 126 && v@.bytes[i] != 34)
                || v@.bytes[i] == 9) ==> r@ == seq!['"'] + v@.bytes.map_values(|c: u8| c as char)
            + seq!['"'],
{
    if !v@.sensitive && (forall|i: int|
        0 <= i < v@.bytes.len() ==> (32 <= #[trigger] v@.bytes[i] <= 126 && v@.bytes[i] != 34)
            || v@.bytes[i] == 9) {
        lemma_debug_escaped_plain(v@.bytes);
    }
}

/// The text of a value whose bytes are those of two values one after the
/// other is the text of the first without its closing quote, then the text
/// of the second without its opening quote.
pub proof fn law_debug_text_concatenates<VE: ValueEncoding>(
    u: MetadataValue<VE>,
    v: MetadataValue<VE>,
    w: MetadataValue<VE>,
    ru: String,
    rv: String,
    rw: String,
)
    requires
        w@.bytes == u@.bytes + v@.bytes,
        !u@.sensitive && !v@.sensitive && !w@.sensitive,
        call_ensures(MetadataValue::<VE>::debug_text, (&u,), ru),
        call_ensures(MetadataValue::<VE>::debug_text, (&v,), rv),
        call_ensures(MetadataValue::<VE>::debug_text, (&w,), rw),
    ensures
        rw@ == ru@.drop_last() + rv@.drop_first(),
{
    lemma_debug_escaped_concat(u@.bytes, v@.bytes);
    assert(ru@.drop_last() =~= seq!['"'] + debug_escaped(u@.bytes));
    assert(rv@.drop_first() =~= debug_escaped(v@.bytes) + seq!['"']);
    assert(rw@ =~= ru@.drop_last() + rv@.drop_first());
}

/// A lower-case hexadecimal digit.
pub open spec fn is_lower_hex_digit(c: char) -> bool {
    ('0' <= c && c <= '9') || ('a' <= c && c <= 'f')
}

/// The value of a lower-case hexadecimal digit.
pub open spec fn lower_hex_value(c: char) -> int {
    if '0' <= c && c <= '9' {
        c as int - 48
    } else {
        c as int - 87
    }
}

/// Each hexadecimal digit reads back as its value.
proof fn lemma_hex_digit(d: int)
    requires
        0 <= d < 16,
    ensures
        is_lower_hex_digit(hex_digit(d)),
        lower_hex_value(hex_digit(d)) == d,
{
    if d == 0 {
        assert(hex_digit(0) == '0');
    } else if d == 1 {
        assert(hex_digit(1) == '1');
    } else if d == 2 {
        assert(hex_digit(2) == '2');
    } else if d == 3 {
        assert(hex_digit(3) == '3');
    } else if d == 4 {
        assert(hex_digit(4) == '4');
    } else if d == 5 {
        assert(hex_digit(5) == '5');
    } else if d == 6 {
        assert(hex_digit(6) == '6');
    } else if d == 7 {
        assert(hex_digit(7) == '7');
    } else if d == 8 {
        assert(hex_digit(8) == '8');
    } else if d == 9 {
        assert(hex_digit(9) == '9');
    } else if d == 10 {
        assert(hex_digit(10) == 'a');
    } else if d == 11 {
        assert(hex_digit(11) == 'b');
    } else if d == 12 {
        assert(hex_digit(12) == 'c');
    } else if d == 13 {
        assert(hex_digit(13) == 'd');
    } else if d == 14 {
        assert(hex_digit(14) == 'e');
    } else {
        assert(hex_digit(15) == 'f');
    }
}

/// A double quote is written `\"`, and a byte of 128 or more as `\x`
/// followed by its two lower-case hexadecimal digits.
pub proof fn law_debug_text_escapes<VE: ValueEncoding>(v: MetadataValue<VE>, b: u8, r: String)
    requires
        v@.bytes == seq![b],
        !v@.sensitive,
        call_ensures(MetadataValue::<VE>::debug_text, (&v,), r),
    ensures
        b == 34 ==> r@ == seq!['"', '\\', '"', '"'],
        b >= 128 ==> r@.len() == 6 && r@[0] == '"' && r@[1] == '\\' && r@[2] == 'x'
            && is_lower_hex_digit(r@[3]) && is_lower_hex_digit(r@[4])
            && lower_hex_value(r@[3]) * 16 + lower_hex_value(r@[4]) == b && r@[5] == '"',
{
    assert(v@.bytes.drop_first() =~= Seq::<u8>::empty());
    assert(debug_escaped(Seq::<u8>::empty()) =~= Seq::<char>::empty());
    assert(v@.bytes[0] == b);
    assert(debug_escaped(v@.bytes) =~= debug_escape(b) + Seq::<char>::empty());
    assert(debug_escaped(v@.bytes) =~= debug_escape(b));
    if b >= 128 {
        let hi = b as int / 16;
        let lo = b as int % 16;
        lemma_hex_digit(hi);
        lemma_hex_digit(lo);
        vstd::arithmetic::div_mod::lemma_fundamental_div_mod(b as int, 16);
    }
}

} // verus!
