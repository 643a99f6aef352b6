//! What holds of the equality and the order of metadata values across calls.
use vstd::prelude::*;
use core::cmp::Ordering;
use vstd::std_specs::cmp::{PartialEqSpec, PartialOrdSpec};
use vstd::string::StringSliceAdditionalSpecFns;
use crate::compare::ordering_of;
use vstd::utf8::encode_utf8;
use crate::encoding::{
    Ascii, Binary, InvalidMetadataValue, InvalidMetadataValueBytes, ValueEncoding, base64_text,
};
use crate::shared::bytes_contents;
use crate::order::{
    compare_bytes, lemma_compare_bytes_antisymmetric, lemma_compare_bytes_first_difference,
    lemma_compare_bytes_proper_prefix, lemma_compare_bytes_range, lemma_compare_bytes_transitive,
    lemma_compare_bytes_zero_iff_equal,
};
use crate::value::{AsciiMetadataValue, BinaryMetadataValue, MetadataValue, ToStrError};

verus! {

/// Sensitivity takes no part in equality or order: two values with the same
/// bytes are equal, whatever their sensitivity, and compare alike with any
/// third value.
pub proof fn law_sensitivity_ignored<VE: ValueEncoding>(
    a: MetadataValue<VE>,
    b: MetadataValue<VE>,
    c: MetadataValue<VE>,
)
    requires
        a@.bytes == b@.bytes,
    ensures
        a.eq_spec(&b),
        a.partial_cmp_spec(&b) == Some(Ordering::Equal),
        a.eq_spec(&c) == b.eq_spec(&c),
        a.partial_cmp_spec(&c) == b.partial_cmp_spec(&c),
        c.partial_cmp_spec(&a) == c.partial_cmp_spec(&b),
{
    lemma_compare_bytes_zero_iff_equal(a@.bytes, b@.bytes);
}

/// Any two values are ordered, and they are ordered as equal exactly when
/// they are equal.
pub proof fn law_order_is_total<VE: ValueEncoding>(a: MetadataValue<VE>, b: MetadataValue<VE>)
    ensures
        a.partial_cmp_spec(&b) is Some,
        a.partial_cmp_spec(&b) == Some(Ordering::Equal) <==> a.eq_spec(&b),
{
    lemma_compare_bytes_zero_iff_equal(a@.bytes, b@.bytes);
}

/// Swapping two values reverses their order.
pub proof fn law_order_is_antisymmetric<VE: ValueEncoding>(
    a: MetadataValue<VE>,
    b: MetadataValue<VE>,
)
    ensures
        a.partial_cmp_spec(&b) == Some(Ordering::Less) <==> b.partial_cmp_spec(&a) == Some(
            Ordering::Greater,
        ),
        a.partial_cmp_spec(&b) == Some(Ordering::Equal) <==> b.partial_cmp_spec(&a) == Some(
            Ordering::Equal,
        ),
{
    lemma_compare_bytes_antisymmetric(a@.bytes, b@.bytes);
    lemma_compare_bytes_range(a@.bytes, b@.bytes);
}

/// Coming first is transitive.
pub proof fn law_order_is_transitive<VE: ValueEncoding>(
    a: MetadataValue<VE>,
    b: MetadataValue<VE>,
    c: MetadataValue<VE>,
)
    requires
        a.partial_cmp_spec(&b) == Some(Ordering::Less),
        b.partial_cmp_spec(&c) == Some(Ordering::Less),
    ensures
        a.partial_cmp_spec(&c) == Some(Ordering::Less),
{
    lemma_compare_bytes_transitive(a@.bytes, b@.bytes, c@.bytes);
}

/// A value compares with a string exactly as it compares with the value
/// holding that string's bytes.
pub proof fn law_str_comparison_agrees<VE: ValueEncoding>(
    a: MetadataValue<VE>,
    b: MetadataValue<VE>,
    s: &str,
)
    requires
        b@.bytes == s.spec_bytes(),
    ensures
        a.eq_spec(s) == a.eq_spec(&b),
        a.partial_cmp_spec(s) == a.partial_cmp_spec(&b),
{
}

/// The order that `cmp` gives is the one that `partial_cmp` gives.
pub proof fn law_cmp_agrees_with_partial_cmp<VE: ValueEncoding>(
    a: MetadataValue<VE>,
    b: MetadataValue<VE>,
    o: Ordering,
)
    requires
        call_ensures(MetadataValue::<VE>::cmp, (&a, &b), o),
    ensures
        a.partial_cmp_spec(&b) == Some(o),
{
}

/// Converting an ASCII value to bytes cannot fail, and gives its own bytes.
pub proof fn law_ascii_to_bytes_is_its_bytes(
    v: AsciiMetadataValue,
    r: Result<bytes::Bytes, InvalidMetadataValueBytes>,
)
    requires
        call_ensures(MetadataValue::<Ascii>::to_bytes, (&v,), r),
    ensures
        r matches Ok(b) && bytes_contents(b) == v@.bytes,
{
}

/// An ASCII value is empty exactly when its length is zero.
pub proof fn law_ascii_empty_iff_zero_length(v: AsciiMetadataValue, empty: bool, n: usize)
    requires
        call_ensures(MetadataValue::<Ascii>::is_empty, (&v,), empty),
        call_ensures(MetadataValue::<Ascii>::len, (&v,), n),
    ensures
        empty == (n == 0),
{
}

/// The bytes of any ASCII value are accepted back by `try_from_bytes`, which
/// then makes an equal value.
pub proof fn law_ascii_bytes_round_trip(
    v: AsciiMetadataValue,
    bytes: &[u8],
    r: Result<AsciiMetadataValue, InvalidMetadataValue>,
)
    requires
        v.wf(),
        call_ensures(MetadataValue::<Ascii>::as_bytes, (&v,), bytes),
        call_ensures(MetadataValue::<Ascii>::try_from_bytes, (bytes,), r),
    ensures
        r matches Ok(w) && w.eq_spec(&v) && !w@.sensitive,
{
}

/// A value made from a string by `from_str` gives that string back from
/// `to_str`.
pub proof fn law_str_round_trip<'a>(
    s: &str,
    made: Result<AsciiMetadataValue, InvalidMetadataValue>,
    v: &'a AsciiMetadataValue,
    back: Result<&'a str, ToStrError>,
)
    requires
        call_ensures(MetadataValue::<Ascii>::from_str, (s,), made),
        made == Ok::<AsciiMetadataValue, InvalidMetadataValue>(*v),
        call_ensures(MetadataValue::<Ascii>::to_str, (v,), back),
    ensures
        back matches Ok(t) && t.spec_bytes() == s.spec_bytes(),
{
}

/// A binary value holds no data exactly when what `to_bytes` decodes it to
/// is empty.
pub proof fn law_binary_empty_iff_decoded_empty(
    v: BinaryMetadataValue,
    empty: bool,
    r: Result<bytes::Bytes, InvalidMetadataValueBytes>,
)
    requires
        call_ensures(MetadataValue::<Binary>::is_empty, (&v,), empty),
        call_ensures(MetadataValue::<Binary>::to_bytes, (&v,), r),
        r is Ok,
    ensures
        r matches Ok(b) && (empty <==> bytes_contents(b).len() == 0),
{
}

/// The unpadded base64 text of any data is accepted by `from_shared`, and
/// `to_bytes` decodes the value it makes back to that data.
pub proof fn law_binary_round_trip(
    data: Seq<u8>,
    src: bytes::Bytes,
    made: Result<BinaryMetadataValue, InvalidMetadataValueBytes>,
    back: Result<bytes::Bytes, InvalidMetadataValueBytes>,
)
    requires
        bytes_contents(src) == base64_text(data),
        call_ensures(MetadataValue::<Binary>::from_shared, (src,), made),
    ensures
        made is Ok,
        made matches Ok(v) && (call_ensures(MetadataValue::<Binary>::to_bytes, (&v,), back)
            ==> (back matches Ok(b) && bytes_contents(b) == data)),
{
    assert(Binary::is_text_of(bytes_contents(src), data));
}

/// Equality of values is an equivalence.
pub proof fn law_equality_is_equivalence<VE: ValueEncoding>(
    a: MetadataValue<VE>,
    b: MetadataValue<VE>,
    c: MetadataValue<VE>,
)
    ensures
        a.eq_spec(&a),
        a.eq_spec(&b) ==> b.eq_spec(&a),
        a.eq_spec(&b) && b.eq_spec(&c) ==> a.eq_spec(&c),
{
}

/// The order is lexicographic by bytes, whatever the lengths: where two
/// values first differ, the one with the smaller byte comes first.
pub proof fn law_order_is_lexicographic<VE: ValueEncoding>(
    a: MetadataValue<VE>,
    b: MetadataValue<VE>,
    p: Seq<u8>,
    x: u8,
    s: Seq<u8>,
    y: u8,
    t: Seq<u8>,
    o: Ordering,
)
    requires
        a@.bytes == p + seq![x] + s,
        b@.bytes == p + seq![y] + t,
        x < y,
    ensures
        a.partial_cmp_spec(&b) == Some(Ordering::Less),
        b.partial_cmp_spec(&a) == Some(Ordering::Greater),
        call_ensures(MetadataValue::<VE>::cmp, (&a, &b), o) ==> o == Ordering::Less,
        call_ensures(MetadataValue::<VE>::cmp, (&b, &a), o) ==> o == Ordering::Greater,
{
    lemma_compare_bytes_first_difference(p, x, s, y, t);
    lemma_compare_bytes_antisymmetric(a@.bytes, b@.bytes);
}

/// A value whose bytes are a proper prefix of another's comes first.
pub proof fn law_prefix_comes_first<VE: ValueEncoding>(
    a: MetadataValue<VE>,
    b: MetadataValue<VE>,
    x: u8,
    s: Seq<u8>,
    o: Ordering,
)
    requires
        b@.bytes == a@.bytes + seq![x] + s,
    ensures
        a.partial_cmp_spec(&b) == Some(Ordering::Less),
        b.partial_cmp_spec(&a) == Some(Ordering::Greater),
        call_ensures(MetadataValue::<VE>::cmp, (&a, &b), o) ==> o == Ordering::Less,
{
    lemma_compare_bytes_proper_prefix(a@.bytes, x, s);
    lemma_compare_bytes_antisymmetric(a@.bytes, b@.bytes);
}

/// Against a string, a value is ordered by the same lexicographic rule: where
/// the value's bytes and the string's first differ, the smaller byte comes
/// first, and a proper prefix comes first.
pub proof fn law_str_order_is_lexicographic<VE: ValueEncoding>(
    a: MetadataValue<VE>,
    text: &str,
    p: Seq<u8>,
    x: u8,
    s: Seq<u8>,
    y: u8,
    t: Seq<u8>,
)
    ensures
        a@.bytes == p + seq![x] + s && text.spec_bytes() == p + seq![y] + t && x < y ==> a.partial_cmp_spec(text) == Some(Ordering::Less),
        a@.bytes == p + seq![y] + t && text.spec_bytes() == p + seq![x] + s && x < y ==> a.partial_cmp_spec(text) == Some(Ordering::Greater),
        text.spec_bytes() == a@.bytes + seq![x] + s ==> a.partial_cmp_spec(text) == Some(Ordering::Less),
        a@.bytes == text.spec_bytes() <==> a.partial_cmp_spec(text) == Some(Ordering::Equal),
{
    if x < y {
        lemma_compare_bytes_first_difference(p, x, s, y, t);
        lemma_compare_bytes_antisymmetric(p + seq![x] + s, p + seq![y] + t);
    }
    lemma_compare_bytes_proper_prefix(a@.bytes, x, s);
    lemma_compare_bytes_zero_iff_equal(a@.bytes, text.spec_bytes());
}

/// Two values are equal exactly when they hold the same bytes, and a value
/// equals a string or a byte slice exactly when it holds the same bytes.
pub proof fn law_equality_is_by_bytes<VE: ValueEncoding>(
    a: MetadataValue<VE>,
    b: MetadataValue<VE>,
    text: &str,
    raw: &[u8],
)
    ensures
        a.eq_spec(&b) <==> a@.bytes == b@.bytes,
        a.eq_spec(text) <==> a@.bytes == text.spec_bytes(),
        a.eq_spec(raw) <==> a@.bytes == raw@,
{
}

/// Every comparison against strings and byte slices, in either direction,
/// agrees with comparing against the value that holds the same bytes.
pub proof fn law_comparisons_agree(
    a: AsciiMetadataValue,
    b: AsciiMetadataValue,
    text: &str,
    raw: &[u8],
    owned: String,
)
    requires
        b@.bytes == text.spec_bytes(),
        b@.bytes == raw@,
        b@.bytes == encode_utf8(owned@),
    ensures
        a.eq_spec(text) == a.eq_spec(&b),
        a.eq_spec(raw) == a.eq_spec(&b),
        a.eq_spec(&owned) == a.eq_spec(&b),
        text.eq_spec(&a) == b.eq_spec(&a),
        raw.eq_spec(&a) == b.eq_spec(&a),
        owned.eq_spec(&a) == b.eq_spec(&a),
        (&text).eq_spec(&a) == b.eq_spec(&a),
        a.partial_cmp_spec(text) == a.partial_cmp_spec(&b),
        a.partial_cmp_spec(raw) == a.partial_cmp_spec(&b),
        a.partial_cmp_spec(&owned) == a.partial_cmp_spec(&b),
        text.partial_cmp_spec(&a) == b.partial_cmp_spec(&a),
        raw.partial_cmp_spec(&a) == b.partial_cmp_spec(&a),
        owned.partial_cmp_spec(&a) == b.partial_cmp_spec(&a),
        (&text).partial_cmp_spec(&a) == b.partial_cmp_spec(&a),
        a.partial_cmp_spec(&text) == a.partial_cmp_spec(&b),
        a.partial_cmp_spec(&raw) == a.partial_cmp_spec(&b),
        a.partial_cmp_spec(&&owned) == a.partial_cmp_spec(&b),
        a.partial_cmp_spec(&&b) == a.partial_cmp_spec(&b),
        (&a).partial_cmp_spec(&b) == a.partial_cmp_spec(&b),
        (&a).eq_spec(&b) == a.eq_spec(&b),
{
}

} // verus!
