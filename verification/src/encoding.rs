//! The two encodings of metadata values: ASCII values, which are sent as they
//! are, and binary values, which are sent in base64.
use vstd::prelude::*;
use crate::header::{
    all_value_bytes, all_visible_ascii, header_value_accepts, is_value_byte, is_visible_ascii,
};
use base64::Engine;

verus! {

/// A byte that an ASCII metadata value may hold: 32 to 255, except DEL (127).
pub open spec fn is_metadata_byte(b: u8) -> bool {
    32 <= b && b != 127
}

/// Every byte of `s` may stand in an ASCII metadata value.
pub open spec fn all_metadata_bytes(s: Seq<u8>) -> bool {
    forall|i: int| 0 <= i < s.len() ==> #[trigger] is_metadata_byte(s[i])
}

/// A visible ASCII character: 32 to 126.
pub open spec fn is_visible_char(b: u8) -> bool {
    32 <= b && b < 127
}

/// Every byte of `s` is a visible ASCII character.
pub open spec fn all_visible_chars(s: Seq<u8>) -> bool {
    forall|i: int| 0 <= i < s.len() ==> #[trigger] is_visible_char(s[i])
}

/// The bytes an ASCII value may hold are those that `http` allows in a header
/// value, but for the tab.
pub proof fn lemma_metadata_bytes_are_value_bytes(s: Seq<u8>)
    ensures
        all_metadata_bytes(s) <==> (all_value_bytes(s) && !s.contains(9u8)),
{
    if all_metadata_bytes(s) {
        assert forall|i: int| 0 <= i < s.len() implies #[trigger] is_value_byte(s[i]) by {
            assert(is_metadata_byte(s[i]));
        }
        if s.contains(9u8) {
            let i = choose|i: int| 0 <= i < s.len() && s[i] == 9u8;
            assert(is_metadata_byte(s[i]));
        }
    }
    if all_value_bytes(s) && !s.contains(9u8) {
        assert forall|i: int| 0 <= i < s.len() implies #[trigger] is_metadata_byte(s[i]) by {
            assert(is_value_byte(s[i]));
            assert(s[i] != 9u8);
        }
    }
}

/// Visible characters may stand in any metadata value, and are visible ASCII
/// to `http` too.
pub proof fn lemma_visible_chars_are_metadata_bytes(s: Seq<u8>)
    requires
        all_visible_chars(s),
    ensures
        all_metadata_bytes(s),
        all_value_bytes(s),
        all_visible_ascii(s),
{
    assert forall|i: int| 0 <= i < s.len() implies #[trigger] is_metadata_byte(s[i]) by {
        assert(is_visible_char(s[i]));
    }
    assert forall|i: int| 0 <= i < s.len() implies #[trigger] is_value_byte(s[i]) by {
        assert(is_visible_char(s[i]));
    }
    assert forall|i: int| 0 <= i < s.len() implies #[trigger] is_visible_ascii(s[i]) by {
        assert(is_visible_char(s[i]));
    }
}

/// Whether `v` holds a tab.
pub(crate) fn holds_tab(v: &[u8]) -> (r: bool)
    ensures
        r == v@.contains(9u8),
{
    let mut i: usize = 0;
    while i < v.len()
        invariant
            i <= v@.len(),
            forall|j: int| 0 <= j < i ==> v@[j] != 9u8,
        decreases v@.len() - i,
    {
        if v[i] == 9u8 {
            assert(v@[i as int] == 9u8);
            return true;
        }
        i = i + 1;
    }
    false
}

/// Whether every byte of `v` is a visible ASCII character.
pub(crate) fn all_visible(v: &[u8]) -> (r: bool)
    ensures
        r == all_visible_chars(v@),
{
    let mut i: usize = 0;
    while i < v.len()
        invariant
            i <= v@.len(),
            forall|j: int| 0 <= j < i ==> #[trigger] is_visible_char(v@[j]),
        decreases v@.len() - i,
    {
        let b = v[i];
        if !(32 <= b && b < 127) {
            assert(!is_visible_char(v@[i as int]));
            return false;
        }
        i = i + 1;
    }
    true
}

/// An error: the value holds a byte that a metadata value cannot hold.
#[derive(Debug)]
pub struct InvalidMetadataValue {
    _priv: (),
}

impl InvalidMetadataValue {
    pub fn new() -> Self {
        InvalidMetadataValue { _priv: () }
    }
}

/// An error: the bytes are not a valid encoding of a metadata value.
#[derive(Debug)]
pub struct InvalidMetadataValueBytes {
    _priv: (),
}

impl InvalidMetadataValueBytes {
    pub fn new() -> Self {
        InvalidMetadataValueBytes { _priv: () }
    }
}

/// What `base64` (standard alphabet, padding optional) decodes `input` to, or
/// `None` where `input` is not base64.
pub uninterp spec fn base64_decoding(input: Seq<u8>) -> Option<Seq<u8>>;

/// The character of the standard base64 alphabet for a 6-bit value: `A`-`Z`,
/// `a`-`z`, `0`-`9`, `+`, `/`.
pub open spec fn base64_char(v: int) -> u8 {
    if v < 26 {
        (65 + v) as u8
    } else if v < 52 {
        (71 + v) as u8
    } else if v < 62 {
        (v - 4) as u8
    } else if v == 62 {
        43u8
    } else {
        47u8
    }
}

/// The standard base64 text of `data` (RFC 4648), without padding: every
/// three bytes become four characters, and a last one or two bytes become
/// two or three characters.
pub open spec fn base64_text(data: Seq<u8>) -> Seq<u8>
    decreases data.len(),
{
    if data.len() == 0 {
        Seq::empty()
    } else if data.len() == 1 {
        let d0 = data[0] as int;
        seq![base64_char(d0 / 4), base64_char((d0 % 4) * 16)]
    } else if data.len() == 2 {
        let d0 = data[0] as int;
        let d1 = data[1] as int;
        seq![base64_char(d0 / 4), base64_char((d0 % 4) * 16 + d1 / 16), base64_char((d1 % 16) * 4)]
    } else {
        let d0 = data[0] as int;
        let d1 = data[1] as int;
        let d2 = data[2] as int;
        seq![
            base64_char(d0 / 4),
            base64_char((d0 % 4) * 16 + d1 / 16),
            base64_char((d1 % 16) * 4 + d2 / 64),
            base64_char(d2 % 64),
        ] + base64_text(data.skip(3))
    }
}

/// How many `=` the padded base64 text of `data` ends in: enough to make its
/// length a multiple of four.
pub open spec fn base64_padding(data: Seq<u8>) -> nat {
    if data.len() % 3 == 1 {
        2
    } else if data.len() % 3 == 2 {
        1
    } else {
        0
    }
}

/// The standard base64 text of `data` with its `=` padding.
pub open spec fn base64_padded_text(data: Seq<u8>) -> Seq<u8> {
    base64_text(data) + Seq::new(base64_padding(data), |i: int| 61u8)
}

/// Base64 text is made of visible characters, so it may stand in any
/// metadata value.
pub proof fn lemma_base64_text_is_visible(data: Seq<u8>)
    ensures
        all_visible_chars(base64_text(data)),
    decreases data.len(),
{
    if data.len() >= 3 {
        lemma_base64_text_is_visible(data.skip(3));
        let t = base64_text(data);
        let rest = base64_text(data.skip(3));
        assert forall|i: int| 0 <= i < t.len() implies #[trigger] is_visible_char(t[i]) by {
            if i >= 4 {
                assert(t[i] == rest[i - 4]);
            }
        }
    }
}

/// A symbol of base64 text: a character of the standard alphabet, or the
/// padding `=`.
pub open spec fn is_base64_symbol(b: u8) -> bool {
    (65 <= b <= 90) || (97 <= b <= 122) || (48 <= b <= 57) || b == 43 || b == 47 || b == 61
}

/// Every byte of `input` is a base64 symbol.
pub open spec fn all_base64_symbols(input: Seq<u8>) -> bool {
    forall|i: int| 0 <= i < input.len() ==> #[trigger] is_base64_symbol(input[i])
}

/// Base64 symbols are visible characters, so they may stand in any metadata
/// value.
pub proof fn lemma_base64_symbols_are_visible(input: Seq<u8>)
    requires
        all_base64_symbols(input),
    ensures
        all_visible_chars(input),
{
    assert forall|i: int| 0 <= i < input.len() implies #[trigger] is_visible_char(input[i]) by {
        assert(is_base64_symbol(input[i]));
    }
}

/// `r` holds `data` wherever `input` is the base64 text of `data`, with or
/// without its padding.
pub open spec fn decodes_back(input: Seq<u8>, r: Option<Vec<u8>>) -> bool {
    forall|d: Seq<u8>|
        #![trigger base64_text(d)]
        (base64_text(d) == input || base64_padded_text(d) == input) ==> (r matches Some(v) && v@
            == d)
}

/// Decodes base64 text with the `base64` crate: the standard alphabet, with
/// the trailing `=` padding allowed but not required.
///
/// Trusted: `Engine::decode` is a function of its input; it fails exactly
/// where `base64_decoding` is `None`. It decodes the standard text of any
/// data back to that data, with its canonical padding or without it (the
/// `Indifferent` padding mode). It decodes the empty input to nothing and
/// any other input it accepts to at least one byte (a chunk needs two
/// symbols before its first byte). It refuses a non-empty input made of `=`
/// alone, since `=` may not open a chunk. It refuses any byte that is neither
/// in its alphabet nor `=` (`InvalidByte`).
#[verifier::external_body]
fn base64_decode(input: &[u8]) -> (r: Option<Vec<u8>>)
    ensures
        match r {
            Some(v) => base64_decoding(input@) == Some(v@),
            None => base64_decoding(input@) is None,
        },
        decodes_back(input@, r),
        r matches Some(v) ==> (v@.len() == 0 <==> input@.len() == 0) && !(input@.len() > 0
            && all_padding(input@)),
        r is Some ==> all_base64_symbols(input@),
{
    let config = base64::engine::GeneralPurposeConfig::new().with_decode_padding_mode(
        base64::engine::DecodePaddingMode::Indifferent,
    );
    match base64::engine::GeneralPurpose::new(&base64::alphabet::STANDARD, config).decode(input) {
        Ok(v) => Some(v),
        Err(_) => None,
    }
}

/// How the bytes of a metadata value are to be read.
pub trait ValueEncoding: Sized {
    /// The text of a value holds no data.
    spec fn holds_no_data(value: Seq<u8>) -> bool;

    /// A text that a value of this encoding may hold.
    spec fn well_formed_text(value: Seq<u8>) -> bool;

    /// A buffer that `from_shared` accepts as the text of a value.
    spec fn accepts_text(value: Seq<u8>) -> bool;

    /// What the text of a value stands for, or `None` where it stands for nothing.
    spec fn decoding(value: Seq<u8>) -> Option<Seq<u8>>;

    /// `text` is what this encoding makes of `data`: for ASCII, the data
    /// itself (made of the bytes an ASCII value may hold); for binary, its
    /// base64 text, padded or not.
    spec fn is_text_of(text: Seq<u8>, data: Seq<u8>) -> bool;

    /// A (normalized) header name that may name a value of this encoding.
    spec fn valid_key(key: Seq<u8>) -> bool;

    /// A text that a value may hold has only header-value bytes.
    proof fn lemma_well_formed_text(value: Seq<u8>)
        ensures
            Self::well_formed_text(value) ==> all_value_bytes(value),
    ;

    /// A text that `from_shared` accepts stands for some data.
    proof fn lemma_accepted_text_decodes(value: Seq<u8>)
        requires
            Self::accepts_text(value),
        ensures
            Self::decoding(value) is Some,
    ;

    /// Whether `key` may name a value of this encoding.
    fn is_valid_key(key: &[u8]) -> (r: bool)
        ensures
            r == Self::valid_key(key@),
    ;

    /// Whether the text `value` holds no data.
    fn is_empty(value: &[u8]) -> (r: bool)
        ensures
            r == Self::holds_no_data(value@),
    ;

    /// Whether `from_shared` accepts `value` as the text of a value. A text it
    /// accepts may be held, and the text of any data is accepted.
    fn accepts(value: &[u8]) -> (r: bool)
        ensures
            r == Self::accepts_text(value@),
            r ==> Self::well_formed_text(value@),
            forall|d: Seq<u8>| #[trigger] Self::is_text_of(value@, d) ==> r,
    ;

    /// The data that the text `value` stands for.
    fn decode(value: &[u8]) -> (r: Result<Vec<u8>, InvalidMetadataValueBytes>)
        ensures
            match r {
                Ok(v) => Self::decoding(value@) == Some(v@),
                Err(_) => Self::decoding(value@) is None,
            },
            forall|d: Seq<u8>| #[trigger] Self::is_text_of(value@, d) ==> (r matches Ok(v) && v@ == d),
            r matches Ok(v) ==> (v@.len() == 0 <==> Self::holds_no_data(value@)),
    ;
}

/// Values that are sent as they are.
#[derive(Debug, Clone, Copy)]
pub struct Ascii;

/// Values that are sent in base64.
#[derive(Debug, Clone, Copy)]
pub struct Binary;

/// The key ends in `-bin`, the mark of a binary value's name.
pub open spec fn has_binary_suffix(key: Seq<u8>) -> bool {
    key.len() >= 4 && key.subrange(key.len() - 4, key.len() as int) == seq![45u8, 98u8, 105u8, 110u8]
}

/// Whether `key` ends in `-bin`.
fn ends_with_binary_suffix(key: &[u8]) -> (r: bool)
    ensures
        r == has_binary_suffix(key@),
{
    let n = key.len();
    if n < 4 {
        return false;
    }
    let r = key[n - 4] == 45u8 && key[n - 3] == 98u8 && key[n - 2] == 105u8 && key[n - 1] == 110u8;
    proof {
        let tail = key@.subrange(n - 4, n as int);
        if r {
            assert(tail =~= seq![45u8, 98u8, 105u8, 110u8]);
        } else {
            if tail == seq![45u8, 98u8, 105u8, 110u8] {
                assert(tail[0] == key@[n - 4]);
                assert(tail[1] == key@[n - 3]);
                assert(tail[2] == key@[n - 2]);
                assert(tail[3] == key@[n - 1]);
            }
        }
    }
    r
}

/// Every byte of `value` is the base64 padding character `=`.
pub open spec fn all_padding(value: Seq<u8>) -> bool {
    forall|i: int| 0 <= i < value.len() ==> #[trigger] value[i] == 61u8
}

impl ValueEncoding for Ascii {
    open spec fn holds_no_data(value: Seq<u8>) -> bool {
        value.len() == 0
    }

    open spec fn well_formed_text(value: Seq<u8>) -> bool {
        all_metadata_bytes(value)
    }

    open spec fn accepts_text(value: Seq<u8>) -> bool {
        all_metadata_bytes(value)
    }

    open spec fn decoding(value: Seq<u8>) -> Option<Seq<u8>> {
        Some(value)
    }

    open spec fn is_text_of(text: Seq<u8>, data: Seq<u8>) -> bool {
        text == data && all_metadata_bytes(data)
    }

    open spec fn valid_key(key: Seq<u8>) -> bool {
        !has_binary_suffix(key)
    }

    proof fn lemma_well_formed_text(value: Seq<u8>) {
        lemma_metadata_bytes_are_value_bytes(value);
    }

    proof fn lemma_accepted_text_decodes(value: Seq<u8>) {
    }

    fn is_valid_key(key: &[u8]) -> (r: bool) {
        !ends_with_binary_suffix(key)
    }

    fn is_empty(value: &[u8]) -> (r: bool) {
        value.len() == 0
    }

    fn accepts(value: &[u8]) -> (r: bool) {
        proof {
            lemma_metadata_bytes_are_value_bytes(value@);
        }
        header_value_accepts(value) && !holds_tab(value)
    }

    fn decode(value: &[u8]) -> (r: Result<Vec<u8>, InvalidMetadataValueBytes>) {
        Ok(vstd::slice::slice_to_vec(value))
    }
}

impl ValueEncoding for Binary {
    open spec fn holds_no_data(value: Seq<u8>) -> bool {
        all_padding(value)
    }

    open spec fn well_formed_text(value: Seq<u8>) -> bool {
        all_value_bytes(value)
    }

    open spec fn accepts_text(value: Seq<u8>) -> bool {
        base64_decoding(value) is Some
    }

    open spec fn decoding(value: Seq<u8>) -> Option<Seq<u8>> {
        base64_decoding(value)
    }

    open spec fn is_text_of(text: Seq<u8>, data: Seq<u8>) -> bool {
        text == base64_text(data) || text == base64_padded_text(data)
    }

    open spec fn valid_key(key: Seq<u8>) -> bool {
        has_binary_suffix(key)
    }

    proof fn lemma_well_formed_text(value: Seq<u8>) {
    }

    proof fn lemma_accepted_text_decodes(value: Seq<u8>) {
    }

    fn is_valid_key(key: &[u8]) -> (r: bool) {
        ends_with_binary_suffix(key)
    }

    fn is_empty(value: &[u8]) -> (r: bool) {
        let mut i: usize = 0;
        while i < value.len()
            invariant
                i <= value@.len(),
                all_padding(value@.take(i as int)),
            decreases value@.len() - i,
        {
            if value[i] != 61u8 {
                assert(!all_padding(value@));
                return false;
            }
            assert(value@.take(i as int + 1) =~= value@.take(i as int).push(value@[i as int]));
            i = i + 1;
        }
        assert(value@.take(i as int) =~= value@);
        true
    }

    fn accepts(value: &[u8]) -> (r: bool) {
        match base64_decode(value) {
            Some(_) => {
                proof {
                    lemma_base64_symbols_are_visible(value@);
                    lemma_visible_chars_are_metadata_bytes(value@);
                }
                true
            },
            None => false,
        }
    }

    fn decode(value: &[u8]) -> (r: Result<Vec<u8>, InvalidMetadataValueBytes>) {
        match base64_decode(value) {
            Some(v) => Ok(v),
            None => Err(InvalidMetadataValueBytes::new()),
        }
    }
}

} // verus!
