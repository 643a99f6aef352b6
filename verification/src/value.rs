//! Metadata values: their construction, conversions and sensitivity.
use vstd::prelude::*;
use vstd::string::StringSliceAdditionalSpecFns;
use vstd::utf8::{valid_utf8, partial_valid_utf8, partial_valid_utf8_extend_ascii_block};
use core::marker::PhantomData;
use crate::encoding::{
    Ascii, Binary, InvalidMetadataValue, InvalidMetadataValueBytes, ValueEncoding,
    all_metadata_bytes, all_visible, all_visible_chars, holds_tab, is_visible_char,
    lemma_metadata_bytes_are_value_bytes, lemma_visible_chars_are_metadata_bytes,
};
use crate::header::{
    all_value_bytes, header_value_accepts, header_value_from_static, header_value_debug,
    header_value_debug_text,
};
use crate::shared::{bytes_as_slice, bytes_contents, bytes_from_vec, bytes_into_vec};

verus! {

/// What a metadata value is: its bytes as sent (for a binary value, the
/// base64 text), and whether it is marked sensitive.
pub struct ValueModel {
    pub bytes: Seq<u8>,
    pub sensitive: bool,
}

/// A custom metadata field value.
pub struct MetadataValue<VE: ValueEncoding> {
    bytes: Vec<u8>,
    sensitive: bool,
    phantom: PhantomData<VE>,
}

/// A metadata value that is sent as it is.
pub type AsciiMetadataValue = MetadataValue<Ascii>;

/// A metadata value that is sent in base64.
pub type BinaryMetadataValue = MetadataValue<Binary>;

impl<VE: ValueEncoding> View for MetadataValue<VE> {
    type V = ValueModel;

    closed spec fn view(&self) -> ValueModel {
        ValueModel { bytes: self.bytes@, sensitive: self.sensitive }
    }
}

/// Bytes that are all visible characters are valid UTF-8.
proof fn lemma_visible_chars_are_utf8(s: Seq<u8>)
    requires
        all_visible_chars(s),
    ensures
        valid_utf8(s),
{
    assert forall|i: int| 0 <= i < s.len() implies
        #[trigger] vstd::utf8::is_leading_byte_width_1(s[i]) by {
        assert(is_visible_char(s[i]));
    }
    assert(s.subrange(0, 0) =~= Seq::<u8>::empty());
    assert(partial_valid_utf8(s, 0));
    partial_valid_utf8_extend_ascii_block(s, 0, s.len() as int);
    assert(s.subrange(0, s.len() as int) =~= s);
}

#[verifier::external_type_specification]
#[verifier::external_body]
pub struct ExUtf8Error(core::str::Utf8Error);

/// Reads bytes as a string slice with `std::str::from_utf8`.
///
/// Trusted: `from_utf8` succeeds exactly on valid UTF-8, and the slice it
/// gives back holds the same bytes.
#[verifier::external_body]
fn str_from_utf8(v: &[u8]) -> (r: Result<&str, core::str::Utf8Error>)
    ensures
        r is Ok <==> valid_utf8(v@),
        r matches Ok(s) ==> s.spec_bytes() == v@,
{
    core::str::from_utf8(v)
}

impl<VE: ValueEncoding> Clone for MetadataValue<VE> {
    fn clone(&self) -> (r: Self)
        ensures
            r@ == self@,
    {
        proof {
            use_type_invariant(self);
        }
        let bytes = self.bytes.clone();
        assert(bytes@ =~= self.bytes@);
        MetadataValue { bytes, sensitive: self.sensitive, phantom: PhantomData }
    }
}

impl<VE: ValueEncoding> MetadataValue<VE> {
    /// A value with these bytes, not marked sensitive.
    pub(crate) fn with_bytes(bytes: Vec<u8>) -> (r: Self)
        requires
            VE::well_formed_text(bytes@),
        ensures
            r@ == (ValueModel { bytes: bytes@, sensitive: false }),
    {
        MetadataValue { bytes, sensitive: false, phantom: PhantomData }
    }

    /// Gives up the value for its bytes.
    pub(crate) fn into_vec(self) -> (r: Vec<u8>)
        ensures
            r@ == self@.bytes,
    {
        self.bytes
    }

    /// The bytes of the value, as sent.
    pub(crate) fn as_slice(&self) -> (r: &[u8])
        ensures
            r@ == self@.bytes,
    {
        self.bytes.as_slice()
    }

    /// The value holds a text that its encoding allows: for an ASCII value,
    /// only the bytes 32 to 255 but DEL; for a binary value, only bytes that a
    /// header value may hold. Every value is well formed.
    pub open spec fn wf(&self) -> bool {
        VE::well_formed_text(self@.bytes)
    }

    #[verifier::type_invariant]
    closed spec fn inv(self) -> bool {
        self.wf()
    }

    /// Attempt to convert a `Bytes` buffer to a `MetadataValue`.
    ///
    /// For `MetadataValue<Ascii>`, if the argument contains invalid metadata
    /// value bytes, an error is returned. Only byte values between 32 and 255
    /// (inclusive) are permitted, excluding byte 127 (DEL).
    ///
    /// For `MetadataValue<Binary>`, if the argument is not valid base64, an
    /// error is returned.
    pub fn from_shared(src: bytes::Bytes) -> (r: Result<Self, InvalidMetadataValueBytes>)
        ensures
            r is Ok <==> VE::accepts_text(bytes_contents(src)),
            r matches Ok(v) ==> v.wf() && v@ == (ValueModel {
                bytes: bytes_contents(src),
                sensitive: false,
            }),
            forall|d: Seq<u8>|
                #![trigger VE::is_text_of(bytes_contents(src), d)]
                VE::is_text_of(bytes_contents(src), d) ==> r is Ok,
    {
        if VE::accepts(bytes_as_slice(&src)) {
            Ok(Self::from_shared_unchecked(src))
        } else {
            Err(InvalidMetadataValueBytes::new())
        }
    }

    /// Convert a `Bytes` directly into a `MetadataValue` without validating.
    /// The caller vouches for what `from_shared` would check: the buffer holds
    /// no illegal bytes, and for `MetadataValue<Binary>` it is base64 encoded.
    pub fn from_shared_unchecked(src: bytes::Bytes) -> (r: Self)
        requires
            VE::accepts_text(bytes_contents(src)),
            VE::well_formed_text(bytes_contents(src)),
        ensures
            r.wf(),
            r@ == (ValueModel { bytes: bytes_contents(src), sensitive: false }),
    {
        MetadataValue { bytes: bytes_into_vec(src), sensitive: false, phantom: PhantomData }
    }

    /// Returns true if the `MetadataValue` holds no data: a zero-length ASCII
    /// value, or a binary value whose base64 text carries no data.
    pub fn is_empty(&self) -> (r: bool)
        ensures
            r == VE::holds_no_data(self@.bytes),
    {
        VE::is_empty(self.bytes.as_slice())
    }

    /// Converts a `MetadataValue` to a `Bytes` buffer: an ASCII value as it
    /// is, a binary value decoded from base64. The data comes back empty
    /// exactly when `is_empty` holds, and a text made from some data decodes
    /// back to that data.
    pub fn to_bytes(&self) -> (r: Result<bytes::Bytes, InvalidMetadataValueBytes>)
        ensures
            match VE::decoding(self@.bytes) {
                Some(d) => r matches Ok(b) && bytes_contents(b) == d,
                None => r is Err,
            },
            forall|d: Seq<u8>|
                #![trigger VE::is_text_of(self@.bytes, d)]
                VE::is_text_of(self@.bytes, d) ==> (r matches Ok(b) && bytes_contents(b) == d),
            r matches Ok(b) ==> (bytes_contents(b).len() == 0 <==> VE::holds_no_data(self@.bytes)),
    {
        match VE::decode(self.bytes.as_slice()) {
            Ok(v) => Ok(bytes_from_vec(v)),
            Err(e) => Err(e),
        }
    }

    /// Mark that the metadata value represents sensitive information.
    pub fn set_sensitive(&mut self, val: bool)
        ensures
            final(self)@ == (ValueModel { bytes: old(self)@.bytes, sensitive: val }),
    {
        proof {
            use_type_invariant(&*self);
        }
        self.sensitive = val;
    }

    /// Returns `true` if the value represents sensitive data.
    pub fn is_sensitive(&self) -> (r: bool)
        ensures
            r == self@.sensitive,
    {
        self.sensitive
    }

    /// The text that `Debug` writes for this value: `Sensitive` for a
    /// sensitive value, else the bytes in quotes, with `"` and the bytes that
    /// are not visible ASCII escaped.
    pub fn debug_text(&self) -> (r: String)
        ensures
            r@ == header_value_debug_text(self@.bytes, self@.sensitive),
    {
        proof {
            use_type_invariant(self);
            VE::lemma_well_formed_text(self.bytes@);
        }
        header_value_debug(self.bytes.as_slice(), self.sensitive)
    }
}

impl MetadataValue<Ascii> {
    /// Convert a static string to a `MetadataValue<Ascii>`. Only visible
    /// ASCII characters (32-126) are permitted; `requires` rules out others,
    /// on which the conversion panics.
    pub fn from_static(src: &'static str) -> (r: Self)
        requires
            all_visible_chars(src.spec_bytes()),
        ensures
            r.wf(),
            r@ == (ValueModel { bytes: src.spec_bytes(), sensitive: false }),
    {
        proof {
            lemma_visible_chars_are_metadata_bytes(src.spec_bytes());
        }
        MetadataValue {
            bytes: header_value_from_static(src),
            sensitive: false,
            phantom: PhantomData,
        }
    }

    /// Attempt to convert a string to a `MetadataValue<Ascii>`. Only visible
    /// ASCII characters (32-126) are permitted; any other character gives an
    /// error. Use `try_from_bytes` for a value that holds opaque octets.
    pub fn from_str(src: &str) -> (r: Result<Self, InvalidMetadataValue>)
        ensures
            r is Ok <==> all_visible_chars(src.spec_bytes()),
            r matches Ok(v) ==> v.wf() && v@ == (ValueModel {
                bytes: src.spec_bytes(),
                sensitive: false,
            }),
    {
        let b = src.as_bytes();
        if all_visible(b) {
            proof {
                lemma_visible_chars_are_metadata_bytes(b@);
            }
            Ok(MetadataValue {
                bytes: vstd::slice::slice_to_vec(b),
                sensitive: false,
                phantom: PhantomData,
            })
        } else {
            Err(InvalidMetadataValue::new())
        }
    }

    /// Attempt to convert a byte slice to a `MetadataValue<Ascii>`. Only byte
    /// values between 32 and 255 (inclusive) are permitted, excluding byte
    /// 127 (DEL).
    pub fn try_from_bytes(src: &[u8]) -> (r: Result<Self, InvalidMetadataValue>)
        ensures
            r is Ok <==> all_metadata_bytes(src@),
            r matches Ok(v) ==> v.wf() && v@ == (ValueModel { bytes: src@, sensitive: false }),
    {
        proof {
            lemma_metadata_bytes_are_value_bytes(src@);
        }
        if header_value_accepts(src) && !holds_tab(src) {
            Ok(MetadataValue {
                bytes: vstd::slice::slice_to_vec(src),
                sensitive: false,
                phantom: PhantomData,
            })
        } else {
            Err(InvalidMetadataValue::new())
        }
    }

    /// Returns the length of `self`, in bytes.
    pub fn len(&self) -> (r: usize)
        ensures
            r == self@.bytes.len(),
    {
        self.bytes.len()
    }

    /// Yields a `&str` slice if the `MetadataValue` only contains visible
    /// ASCII chars (32-126).
    pub fn to_str(&self) -> (r: Result<&str, ToStrError>)
        ensures
            r is Ok <==> all_visible_chars(self@.bytes),
            r matches Ok(s) ==> s.spec_bytes() == self@.bytes,
    {
        if all_visible(self.bytes.as_slice()) {
            proof {
                lemma_visible_chars_are_utf8(self.bytes@);
            }
            match str_from_utf8(self.bytes.as_slice()) {
                Ok(s) => Ok(s),
                Err(_) => Err(ToStrError::new()),
            }
        } else {
            Err(ToStrError::new())
        }
    }

    /// Converts a `MetadataValue` to a byte slice.
    pub fn as_bytes(&self) -> (r: &[u8])
        ensures
            r@ == self@.bytes,
    {
        self.bytes.as_slice()
    }
}

impl MetadataValue<Binary> {
    /// Convert a byte slice to a `MetadataValue<Binary>`, keeping the bytes as
    /// they are. `requires` rules out the bytes on which the conversion would
    /// panic: those that a header value cannot hold.
    pub fn from_bytes(src: &[u8]) -> (r: Self)
        requires
            all_value_bytes(src@),
        ensures
            r.wf(),
            r@ == (ValueModel { bytes: src@, sensitive: false }),
    {
        MetadataValue {
            bytes: vstd::slice::slice_to_vec(src),
            sensitive: false,
            phantom: PhantomData,
        }
    }
}

/// A possible error when converting a `MetadataValue` to a string
/// representation.
///
/// Metadata field values may contain opaque bytes, in which case it is not
/// possible to represent the value as a string.
#[derive(Debug)]
pub struct ToStrError {
    _priv: (),
}

impl ToStrError {
    /// The error; it carries nothing, so there is only one.
    pub closed spec fn the_error() -> Self {
        ToStrError { _priv: () }
    }

    pub fn new() -> (r: Self)
        ensures
            r == Self::the_error(),
    {
        ToStrError { _priv: () }
    }

    /// What the error says.
    pub fn description(&self) -> (r: &'static str)
        ensures
            r@ == "failed to convert metadata to a str"@,
    {
        "failed to convert metadata to a str"
    }
}

impl Default for ToStrError {
    fn default() -> (r: Self)
        ensures
            r == ToStrError::the_error(),
    {
        ToStrError::new()
    }
}

} // verus!
