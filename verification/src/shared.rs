//! The shared byte buffer of the `bytes` crate, as far as this library passes
//! it in and out.
use vstd::prelude::*;

verus! {

#[verifier::external_type_specification]
#[verifier::external_body]
pub struct ExBytes(bytes::Bytes);

/// The bytes that a `bytes::Bytes` buffer holds, in order.
pub uninterp spec fn bytes_contents(b: bytes::Bytes) -> Seq<u8>;

/// Moves a vector into a `Bytes` buffer with `bytes::Bytes::from`.
///
/// Trusted: `From<Vec<u8>> for Bytes` keeps the vector's bytes, in order.
#[verifier::external_body]
pub(crate) fn bytes_from_vec(v: Vec<u8>) -> (r: bytes::Bytes)
    ensures
        bytes_contents(r) == v@,
{
    bytes::Bytes::from(v)
}

/// Moves the contents of a `Bytes` buffer into a vector with
/// `From<Bytes> for Vec<u8>`.
///
/// Trusted: that impl keeps the buffer's bytes, in order.
#[verifier::external_body]
pub(crate) fn bytes_into_vec(b: bytes::Bytes) -> (r: Vec<u8>)
    ensures
        r@ == bytes_contents(b),
{
    Vec::from(b)
}

/// Reads the contents of a `Bytes` buffer as a slice, with its
/// `AsRef<[u8]>` impl.
///
/// Trusted: the slice holds the buffer's bytes, in order.
#[verifier::external_body]
pub(crate) fn bytes_as_slice(b: &bytes::Bytes) -> (r: &[u8])
    ensures
        r@ == bytes_contents(*b),
{
    b.as_ref()
}

} // verus!
