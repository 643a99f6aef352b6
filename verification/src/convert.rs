//! Conversions into and out of metadata values.
use vstd::prelude::*;
use vstd::std_specs::convert::FromSpecImpl;
use vstd::string::StringSliceAdditionalSpecFns;
use crate::encoding::{Ascii, InvalidMetadataValue, ValueEncoding};
use crate::encoding::{all_visible_chars, is_visible_char, lemma_visible_chars_are_metadata_bytes};
use crate::header::{decimal_digits, header_value_from_i64, header_value_from_u64, signed_decimal};
use crate::key::{MetadataKey, lemma_name_bytes_are_visible_chars};
use crate::shared::{bytes_contents, bytes_from_vec};
use crate::value::{MetadataValue, ValueModel};

verus! {

/// A decimal text is made of digits.
pub proof fn lemma_decimal_digits_are_digits(n: nat)
    ensures
        forall|i: int|
            0 <= i < decimal_digits(n).len() ==> 48 <= #[trigger] decimal_digits(n)[i] <= 57,
    decreases n,
{
    if n >= 10 {
        lemma_decimal_digits_are_digits(n / 10);
        let d = decimal_digits(n);
        let p = decimal_digits(n / 10);
        assert forall|i: int| 0 <= i < d.len() implies 48 <= #[trigger] d[i] <= 57 by {
            if i < p.len() {
                assert(d[i] == p[i]);
            }
        }
    }
}

/// A signed decimal text is made of visible characters.
pub proof fn lemma_signed_decimal_is_visible(n: int)
    ensures
        all_visible_chars(signed_decimal(n)),
{
    let d = if n < 0 {
        decimal_digits((-n) as nat)
    } else {
        decimal_digits(n as nat)
    };
    lemma_decimal_digits_are_digits(if n < 0 {
        (-n) as nat
    } else {
        n as nat
    });
    let s = signed_decimal(n);
    assert forall|i: int| 0 <= i < s.len() implies #[trigger] is_visible_char(s[i]) by {
        if n < 0 {
            if i > 0 {
                assert(s[i] == d[i - 1]);
            }
        } else {
            assert(s[i] == d[i]);
        }
    }
}

/// The decimal text of an unsigned number as an ASCII metadata value.
fn from_unsigned(n: u64) -> (r: MetadataValue<Ascii>)
    ensures
        r.wf(),
        r@ == (ValueModel { bytes: decimal_digits(n as nat), sensitive: false }),
{
    proof {
        lemma_signed_decimal_is_visible(n as int);
        lemma_visible_chars_are_metadata_bytes(decimal_digits(n as nat));
    }
    MetadataValue::with_bytes(header_value_from_u64(n))
}

/// The decimal text of a signed number as an ASCII metadata value.
fn from_signed(n: i64) -> (r: MetadataValue<Ascii>)
    ensures
        r.wf(),
        r@ == (ValueModel { bytes: signed_decimal(n as int), sensitive: false }),
{
    proof {
        lemma_signed_decimal_is_visible(n as int);
        lemma_visible_chars_are_metadata_bytes(signed_decimal(n as int));
    }
    MetadataValue::with_bytes(header_value_from_i64(n))
}

impl From<u16> for MetadataValue<Ascii> {
    fn from(num: u16) -> (r: MetadataValue<Ascii>)
        ensures
            r.wf(),
            r@ == (ValueModel { bytes: decimal_digits(num as nat), sensitive: false }),
    {
        from_unsigned(num as u64)
    }
}

impl From<i16> for MetadataValue<Ascii> {
    fn from(num: i16) -> (r: MetadataValue<Ascii>)
        ensures
            r.wf(),
            r@ == (ValueModel { bytes: signed_decimal(num as int), sensitive: false }),
    {
        from_signed(num as i64)
    }
}

impl From<u32> for MetadataValue<Ascii> {
    fn from(num: u32) -> (r: MetadataValue<Ascii>)
        ensures
            r.wf(),
            r@ == (ValueModel { bytes: decimal_digits(num as nat), sensitive: false }),
    {
        from_unsigned(num as u64)
    }
}

impl From<i32> for MetadataValue<Ascii> {
    fn from(num: i32) -> (r: MetadataValue<Ascii>)
        ensures
            r.wf(),
            r@ == (ValueModel { bytes: signed_decimal(num as int), sensitive: false }),
    {
        from_signed(num as i64)
    }
}

impl From<u64> for MetadataValue<Ascii> {
    fn from(num: u64) -> (r: MetadataValue<Ascii>)
        ensures
            r.wf(),
            r@ == (ValueModel { bytes: decimal_digits(num as nat), sensitive: false }),
    {
        from_unsigned(num)
    }
}

impl From<i64> for MetadataValue<Ascii> {
    fn from(num: i64) -> (r: MetadataValue<Ascii>)
        ensures
            r.wf(),
            r@ == (ValueModel { bytes: signed_decimal(num as int), sensitive: false }),
    {
        from_signed(num)
    }
}

impl From<usize> for MetadataValue<Ascii> {
    fn from(num: usize) -> (r: MetadataValue<Ascii>)
        ensures
            r.wf(),
            r@ == (ValueModel { bytes: decimal_digits(num as nat), sensitive: false }),
    {
        from_unsigned(num as u64)
    }
}

impl From<isize> for MetadataValue<Ascii> {
    fn from(num: isize) -> (r: MetadataValue<Ascii>)
        ensures
            r.wf(),
            r@ == (ValueModel { bytes: signed_decimal(num as int), sensitive: false }),
    {
        from_signed(num as i64)
    }
}

/// The contract of these conversions stands on their `from` itself.
impl FromSpecImpl<u16> for MetadataValue<Ascii> {
    open spec fn obeys_from_spec() -> bool {
        false
    }

    open spec fn from_spec(v: u16) -> Self {
        arbitrary()
    }
}

impl FromSpecImpl<i16> for MetadataValue<Ascii> {
    open spec fn obeys_from_spec() -> bool {
        false
    }

    open spec fn from_spec(v: i16) -> Self {
        arbitrary()
    }
}

impl FromSpecImpl<u32> for MetadataValue<Ascii> {
    open spec fn obeys_from_spec() -> bool {
        false
    }

    open spec fn from_spec(v: u32) -> Self {
        arbitrary()
    }
}

impl FromSpecImpl<i32> for MetadataValue<Ascii> {
    open spec fn obeys_from_spec() -> bool {
        false
    }

    open spec fn from_spec(v: i32) -> Self {
        arbitrary()
    }
}

impl FromSpecImpl<u64> for MetadataValue<Ascii> {
    open spec fn obeys_from_spec() -> bool {
        false
    }

    open spec fn from_spec(v: u64) -> Self {
        arbitrary()
    }
}

impl FromSpecImpl<i64> for MetadataValue<Ascii> {
    open spec fn obeys_from_spec() -> bool {
        false
    }

    open spec fn from_spec(v: i64) -> Self {
        arbitrary()
    }
}

impl FromSpecImpl<usize> for MetadataValue<Ascii> {
    open spec fn obeys_from_spec() -> bool {
        false
    }

    open spec fn from_spec(v: usize) -> Self {
        arbitrary()
    }
}

impl FromSpecImpl<isize> for MetadataValue<Ascii> {
    open spec fn obeys_from_spec() -> bool {
        false
    }

    open spec fn from_spec(v: isize) -> Self {
        arbitrary()
    }
}

impl<KeyVE: ValueEncoding> From<MetadataKey<KeyVE>> for MetadataValue<Ascii> {
    /// Every valid metadata key is a valid metadata value, so this cannot fail.
    fn from(key: MetadataKey<KeyVE>) -> (r: MetadataValue<Ascii>)
        ensures
            r.wf(),
            r@ == (ValueModel { bytes: key@, sensitive: false }),
    {
        let bytes = key.into_bytes();
        proof {
            lemma_name_bytes_are_visible_chars(bytes@);
            lemma_visible_chars_are_metadata_bytes(bytes@);
        }
        MetadataValue::with_bytes(bytes)
    }
}

impl<KeyVE: ValueEncoding> FromSpecImpl<MetadataKey<KeyVE>> for MetadataValue<Ascii> {
    open spec fn obeys_from_spec() -> bool {
        false
    }

    open spec fn from_spec(v: MetadataKey<KeyVE>) -> Self {
        arbitrary()
    }
}

impl MetadataValue<Ascii> {
    /// Converts a `MetadataKey` into a `MetadataValue<Ascii>`. Since every
    /// valid metadata key is a valid metadata value, this cannot fail.
    pub fn from_key<KeyVE: ValueEncoding>(key: MetadataKey<KeyVE>) -> (r: Self)
        ensures
            r.wf(),
            r@ == (ValueModel { bytes: key@, sensitive: false }),
    {
        MetadataValue::<Ascii>::from(key)
    }
}

impl<'a, VE: ValueEncoding> From<&'a MetadataValue<VE>> for MetadataValue<VE> {
    fn from(t: &'a MetadataValue<VE>) -> (r: MetadataValue<VE>)
        ensures
            r@ == t@,
    {
        t.clone()
    }
}

impl<'a, VE: ValueEncoding> FromSpecImpl<&'a MetadataValue<VE>> for MetadataValue<VE> {
    open spec fn obeys_from_spec() -> bool {
        false
    }

    open spec fn from_spec(v: &'a MetadataValue<VE>) -> Self {
        arbitrary()
    }
}

impl<VE: ValueEncoding> From<MetadataValue<VE>> for bytes::Bytes {
    fn from(value: MetadataValue<VE>) -> (r: bytes::Bytes)
        ensures
            bytes_contents(r) == value@.bytes,
    {
        bytes_from_vec(value.into_vec())
    }
}

impl<VE: ValueEncoding> FromSpecImpl<MetadataValue<VE>> for bytes::Bytes {
    open spec fn obeys_from_spec() -> bool {
        false
    }

    open spec fn from_spec(v: MetadataValue<VE>) -> Self {
        arbitrary()
    }
}

impl core::str::FromStr for MetadataValue<Ascii> {
    type Err = InvalidMetadataValue;

    fn from_str(s: &str) -> (r: Result<MetadataValue<Ascii>, InvalidMetadataValue>)
        ensures
            r is Ok <==> crate::encoding::all_visible_chars(s.spec_bytes()),
            r matches Ok(v) ==> v.wf() && v@ == (ValueModel {
                bytes: s.spec_bytes(),
                sensitive: false,
            }),
    {
        MetadataValue::<Ascii>::from_str(s)
    }
}

impl<VE: ValueEncoding> core::hash::Hash for MetadataValue<VE> {
    /// Hashes the bytes alone, as equality looks at them alone.
    #[verifier::external_body]
    fn hash<H: core::hash::Hasher>(&self, state: &mut H) {
        self.as_slice().hash(state)
    }
}

impl<VE: ValueEncoding> AsRef<[u8]> for MetadataValue<VE> {
    fn as_ref(&self) -> (r: &[u8])
        ensures
            r@ == self@.bytes,
    {
        self.as_slice()
    }
}

} // verus!
