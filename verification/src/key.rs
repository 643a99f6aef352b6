//! Metadata keys, as far as values are made from them.
use vstd::prelude::*;
use core::marker::PhantomData;
use crate::encoding::{ValueEncoding, all_visible_chars, is_visible_char};
use crate::header::{
    header_name_char, header_name_from_bytes, is_header_name, max_header_name_len,
    normalized_header_name,
};

verus! {

/// An error: the bytes are not a valid metadata key.
#[derive(Debug)]
pub struct InvalidMetadataKey {
    _priv: (),
}

impl InvalidMetadataKey {
    pub fn new() -> Self {
        InvalidMetadataKey { _priv: () }
    }
}

/// A header name as `http` keeps it: not empty, not too long, every byte a
/// lower-case token character.
pub open spec fn is_normal_header_name(s: Seq<u8>) -> bool {
    &&& 0 < s.len() <= max_header_name_len()
    &&& forall|i: int| 0 <= i < s.len() ==> header_name_char(#[trigger] s[i]) == s[i] && s[i] != 0
}

/// Normalizing an accepted header name gives a name as `http` keeps it.
pub proof fn lemma_normalized_name_is_normal(src: Seq<u8>)
    requires
        is_header_name(src),
    ensures
        is_normal_header_name(normalized_header_name(src)),
{
    let n = normalized_header_name(src);
    assert forall|i: int| 0 <= i < n.len() implies header_name_char(#[trigger] n[i]) == n[i] && n[i]
        != 0 by {
        assert(header_name_char(src[i]) != 0);
    }
}

/// Every byte of a header name is a visible character, so a header name is
/// a valid metadata value.
pub proof fn lemma_name_bytes_are_visible_chars(s: Seq<u8>)
    requires
        is_normal_header_name(s),
    ensures
        all_visible_chars(s),
{
    assert forall|i: int| 0 <= i < s.len() implies #[trigger] is_visible_char(s[i]) by {
        assert(header_name_char(s[i]) == s[i] && s[i] != 0);
    }
}

/// The name of a metadata field, for values of the encoding `VE`.
pub struct MetadataKey<VE: ValueEncoding> {
    bytes: Vec<u8>,
    phantom: PhantomData<VE>,
}

impl<VE: ValueEncoding> View for MetadataKey<VE> {
    type V = Seq<u8>;

    closed spec fn view(&self) -> Seq<u8> {
        self.bytes@
    }
}

impl<VE: ValueEncoding> MetadataKey<VE> {
    #[verifier::type_invariant]
    closed spec fn inv(self) -> bool {
        is_normal_header_name(self.bytes@) && VE::valid_key(self.bytes@)
    }

    /// Converts a slice of bytes to a metadata key, lower-casing it. An
    /// error is returned where the bytes are not a header name, or where the
    /// name does not suit the encoding (a binary key ends in `-bin`, an ASCII
    /// key does not).
    pub fn from_bytes(src: &[u8]) -> (r: Result<Self, InvalidMetadataKey>)
        ensures
            r is Ok <==> is_header_name(src@) && VE::valid_key(normalized_header_name(src@)),
            r matches Ok(k) ==> k@ == normalized_header_name(src@),
    {
        match header_name_from_bytes(src) {
            Some(name) => {
                proof {
                    lemma_normalized_name_is_normal(src@);
                }
                if VE::is_valid_key(name.as_slice()) {
                    Ok(MetadataKey { bytes: name, phantom: PhantomData })
                } else {
                    Err(InvalidMetadataKey::new())
                }
            },
            None => Err(InvalidMetadataKey::new()),
        }
    }

    /// The bytes of the key.
    pub fn as_bytes(&self) -> (r: &[u8])
        ensures
            r@ == self@,
            is_normal_header_name(r@),
            VE::valid_key(r@),
    {
        proof {
            use_type_invariant(self);
        }
        self.bytes.as_slice()
    }

    /// Gives up the key for its bytes.
    pub(crate) fn into_bytes(self) -> (r: Vec<u8>)
        ensures
            r@ == self@,
            is_normal_header_name(r@),
    {
        proof {
            use_type_invariant(&self);
        }
        self.bytes
    }
}

} // verus!
