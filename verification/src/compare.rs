//! Equality and order of metadata values, among themselves and against
//! strings and byte slices. Sensitivity takes no part in either.
use vstd::prelude::*;
use core::cmp::Ordering;
use vstd::std_specs::cmp::{PartialEqSpec, PartialEqSpecImpl, PartialOrdSpecImpl};
use vstd::utf8::encode_utf8;
use vstd::string::StringSliceAdditionalSpecFns;
use crate::encoding::{Ascii, ValueEncoding};
use crate::order::{bytes_compare, bytes_equal, compare_bytes};
use crate::value::MetadataValue;

verus! {

/// The `Ordering` that a comparison result of -1, 0 or 1 stands for.
pub open spec fn ordering_of(c: i8) -> Ordering {
    if c < 0 {
        Ordering::Less
    } else if c == 0 {
        Ordering::Equal
    } else {
        Ordering::Greater
    }
}

fn to_ordering(c: i8) -> (r: Ordering)
    ensures
        r == ordering_of(c),
{
    if c < 0 {
        Ordering::Less
    } else if c == 0 {
        Ordering::Equal
    } else {
        Ordering::Greater
    }
}

impl<VE: ValueEncoding> PartialEq for MetadataValue<VE> {
    fn eq(&self, other: &MetadataValue<VE>) -> (r: bool) {
        bytes_equal(self.as_slice(), other.as_slice())
    }
}

impl<VE: ValueEncoding> PartialEqSpecImpl for MetadataValue<VE> {
    open spec fn obeys_eq_spec() -> bool {
        true
    }

    open spec fn eq_spec(&self, other: &MetadataValue<VE>) -> bool {
        self@.bytes == other@.bytes
    }
}

impl<VE: ValueEncoding> Eq for MetadataValue<VE> {

}

impl<VE: ValueEncoding> PartialOrd for MetadataValue<VE> {
    fn partial_cmp(&self, other: &MetadataValue<VE>) -> (r: Option<Ordering>) {
        Some(to_ordering(bytes_compare(self.as_slice(), other.as_slice())))
    }
}

impl<VE: ValueEncoding> PartialOrdSpecImpl for MetadataValue<VE> {
    open spec fn obeys_partial_cmp_spec() -> bool {
        true
    }

    open spec fn partial_cmp_spec(&self, other: &MetadataValue<VE>) -> Option<Ordering> {
        Some(ordering_of(compare_bytes(self@.bytes, other@.bytes)))
    }
}

impl<VE: ValueEncoding> MetadataValue<VE> {
    /// The order of two values: that of their bytes, lexicographically.
    pub fn cmp(&self, other: &Self) -> (r: Ordering)
        ensures
            r == ordering_of(compare_bytes(self@.bytes, other@.bytes)),
    {
        to_ordering(bytes_compare(self.as_slice(), other.as_slice()))
    }
}

impl<VE: ValueEncoding> PartialEq<str> for MetadataValue<VE> {
    fn eq(&self, other: &str) -> (r: bool) {
        bytes_equal(self.as_slice(), other.as_bytes())
    }
}

impl<VE: ValueEncoding> PartialEqSpecImpl<str> for MetadataValue<VE> {
    open spec fn obeys_eq_spec() -> bool {
        true
    }

    open spec fn eq_spec(&self, other: &str) -> bool {
        self@.bytes == other.spec_bytes()
    }
}

impl<'a, VE: ValueEncoding, T: ?Sized> PartialEq<&'a T> for MetadataValue<VE> where
    MetadataValue<VE>: PartialEq<T>,
 {
    fn eq(&self, other: &&'a T) -> (r: bool) {
        *self == **other
    }
}

impl<'a, VE: ValueEncoding, T: ?Sized> PartialEqSpecImpl<&'a T> for MetadataValue<VE> where
    MetadataValue<VE>: PartialEq<T>,
 {
    open spec fn obeys_eq_spec() -> bool {
        <MetadataValue<VE> as PartialEqSpec<T>>::obeys_eq_spec()
    }

    open spec fn eq_spec(&self, other: &&'a T) -> bool {
        <MetadataValue<VE> as PartialEqSpec<T>>::eq_spec(self, *other)
    }
}


impl<VE: ValueEncoding> PartialEq<[u8]> for MetadataValue<VE> {
    fn eq(&self, other: &[u8]) -> (r: bool) {
        bytes_equal(self.as_slice(), other)
    }
}

impl<VE: ValueEncoding> PartialEqSpecImpl<[u8]> for MetadataValue<VE> {
    open spec fn obeys_eq_spec() -> bool {
        true
    }

    open spec fn eq_spec(&self, other: &[u8]) -> bool {
        self@.bytes == other@
    }
}

impl<VE: ValueEncoding> PartialOrd<str> for MetadataValue<VE> {
    fn partial_cmp(&self, other: &str) -> (r: Option<Ordering>) {
        Some(to_ordering(bytes_compare(self.as_slice(), other.as_bytes())))
    }
}

impl<VE: ValueEncoding> PartialOrdSpecImpl<str> for MetadataValue<VE> {
    open spec fn obeys_partial_cmp_spec() -> bool {
        true
    }

    open spec fn partial_cmp_spec(&self, other: &str) -> Option<Ordering> {
        Some(ordering_of(compare_bytes(self@.bytes, other.spec_bytes())))
    }
}

impl<VE: ValueEncoding> PartialOrd<[u8]> for MetadataValue<VE> {
    fn partial_cmp(&self, other: &[u8]) -> (r: Option<Ordering>) {
        Some(to_ordering(bytes_compare(self.as_slice(), other)))
    }
}

impl<VE: ValueEncoding> PartialOrdSpecImpl<[u8]> for MetadataValue<VE> {
    open spec fn obeys_partial_cmp_spec() -> bool {
        true
    }

    open spec fn partial_cmp_spec(&self, other: &[u8]) -> Option<Ordering> {
        Some(ordering_of(compare_bytes(self@.bytes, other@)))
    }
}

impl<VE: ValueEncoding> PartialEq<MetadataValue<VE>> for str {
    fn eq(&self, other: &MetadataValue<VE>) -> (r: bool) {
        *other == *self
    }
}

impl<VE: ValueEncoding> PartialEqSpecImpl<MetadataValue<VE>> for str {
    open spec fn obeys_eq_spec() -> bool {
        true
    }

    open spec fn eq_spec(&self, other: &MetadataValue<VE>) -> bool {
        other@.bytes == self.spec_bytes()
    }
}

impl<VE: ValueEncoding> PartialEq<MetadataValue<VE>> for [u8] {
    fn eq(&self, other: &MetadataValue<VE>) -> (r: bool) {
        *other == *self
    }
}

impl<VE: ValueEncoding> PartialEqSpecImpl<MetadataValue<VE>> for [u8] {
    open spec fn obeys_eq_spec() -> bool {
        true
    }

    open spec fn eq_spec(&self, other: &MetadataValue<VE>) -> bool {
        other@.bytes == self@
    }
}

impl PartialOrd<MetadataValue<Ascii>> for str {
    fn partial_cmp(&self, other: &MetadataValue<Ascii>) -> (r: Option<Ordering>) {
        Some(to_ordering(bytes_compare(self.as_bytes(), other.as_bytes())))
    }
}

impl PartialOrdSpecImpl<MetadataValue<Ascii>> for str {
    open spec fn obeys_partial_cmp_spec() -> bool {
        true
    }

    open spec fn partial_cmp_spec(&self, other: &MetadataValue<Ascii>) -> Option<Ordering> {
        Some(ordering_of(compare_bytes(self.spec_bytes(), other@.bytes)))
    }
}

impl PartialOrd<MetadataValue<Ascii>> for [u8] {
    fn partial_cmp(&self, other: &MetadataValue<Ascii>) -> (r: Option<Ordering>) {
        Some(to_ordering(bytes_compare(self, other.as_bytes())))
    }
}

impl PartialOrdSpecImpl<MetadataValue<Ascii>> for [u8] {
    open spec fn obeys_partial_cmp_spec() -> bool {
        true
    }

    open spec fn partial_cmp_spec(&self, other: &MetadataValue<Ascii>) -> Option<Ordering> {
        Some(ordering_of(compare_bytes(self@, other@.bytes)))
    }
}

impl<VE: ValueEncoding> PartialEq<String> for MetadataValue<VE> {
    fn eq(&self, other: &String) -> (r: bool) {
        bytes_equal(self.as_slice(), other.as_str().as_bytes())
    }
}

impl<VE: ValueEncoding> PartialEqSpecImpl<String> for MetadataValue<VE> {
    open spec fn obeys_eq_spec() -> bool {
        true
    }

    open spec fn eq_spec(&self, other: &String) -> bool {
        self@.bytes == encode_utf8(other@)
    }
}

impl PartialOrd<String> for MetadataValue<Ascii> {
    fn partial_cmp(&self, other: &String) -> (r: Option<Ordering>) {
        Some(to_ordering(bytes_compare(self.as_slice(), other.as_str().as_bytes())))
    }
}

impl PartialOrdSpecImpl<String> for MetadataValue<Ascii> {
    open spec fn obeys_partial_cmp_spec() -> bool {
        true
    }

    open spec fn partial_cmp_spec(&self, other: &String) -> Option<Ordering> {
        Some(ordering_of(compare_bytes(self@.bytes, encode_utf8(other@))))
    }
}

impl<VE: ValueEncoding> PartialEq<MetadataValue<VE>> for String {
    fn eq(&self, other: &MetadataValue<VE>) -> (r: bool) {
        *other == *self
    }
}

impl<VE: ValueEncoding> PartialEqSpecImpl<MetadataValue<VE>> for String {
    open spec fn obeys_eq_spec() -> bool {
        true
    }

    open spec fn eq_spec(&self, other: &MetadataValue<VE>) -> bool {
        other@.bytes == encode_utf8(self@)
    }
}

impl PartialOrd<MetadataValue<Ascii>> for String {
    fn partial_cmp(&self, other: &MetadataValue<Ascii>) -> (r: Option<Ordering>) {
        Some(to_ordering(bytes_compare(self.as_str().as_bytes(), other.as_bytes())))
    }
}

impl PartialOrdSpecImpl<MetadataValue<Ascii>> for String {
    open spec fn obeys_partial_cmp_spec() -> bool {
        true
    }

    open spec fn partial_cmp_spec(&self, other: &MetadataValue<Ascii>) -> Option<Ordering> {
        Some(ordering_of(compare_bytes(encode_utf8(self@), other@.bytes)))
    }
}

impl<'a, VE: ValueEncoding> PartialEq<MetadataValue<VE>> for &'a MetadataValue<VE> {
    fn eq(&self, other: &MetadataValue<VE>) -> (r: bool) {
        **self == *other
    }
}

impl<'a, VE: ValueEncoding> PartialEqSpecImpl<MetadataValue<VE>> for &'a MetadataValue<VE> {
    open spec fn obeys_eq_spec() -> bool {
        true
    }

    open spec fn eq_spec(&self, other: &MetadataValue<VE>) -> bool {
        (**self)@.bytes == other@.bytes
    }
}

impl<'a, VE: ValueEncoding> PartialOrd<MetadataValue<VE>> for &'a MetadataValue<VE> {
    fn partial_cmp(&self, other: &MetadataValue<VE>) -> (r: Option<Ordering>) {
        (**self).partial_cmp(other)
    }
}

impl<'a, VE: ValueEncoding> PartialOrdSpecImpl<MetadataValue<VE>> for &'a MetadataValue<VE> {
    open spec fn obeys_partial_cmp_spec() -> bool {
        true
    }

    open spec fn partial_cmp_spec(&self, other: &MetadataValue<VE>) -> Option<Ordering> {
        Some(ordering_of(compare_bytes((**self)@.bytes, other@.bytes)))
    }
}

impl<'a, VE: ValueEncoding> PartialOrd<&'a str> for MetadataValue<VE> {
    fn partial_cmp(&self, other: &&'a str) -> (r: Option<Ordering>) {
        Some(to_ordering(bytes_compare(self.as_slice(), (**other).as_bytes())))
    }
}

impl<'a, VE: ValueEncoding> PartialOrdSpecImpl<&'a str> for MetadataValue<VE> {
    open spec fn obeys_partial_cmp_spec() -> bool {
        true
    }

    open spec fn partial_cmp_spec(&self, other: &&'a str) -> Option<Ordering> {
        Some(ordering_of(compare_bytes(self@.bytes, (**other).spec_bytes())))
    }
}

impl<'a, VE: ValueEncoding> PartialOrd<&'a [u8]> for MetadataValue<VE> {
    fn partial_cmp(&self, other: &&'a [u8]) -> (r: Option<Ordering>) {
        Some(to_ordering(bytes_compare(self.as_slice(), *other)))
    }
}

impl<'a, VE: ValueEncoding> PartialOrdSpecImpl<&'a [u8]> for MetadataValue<VE> {
    open spec fn obeys_partial_cmp_spec() -> bool {
        true
    }

    open spec fn partial_cmp_spec(&self, other: &&'a [u8]) -> Option<Ordering> {
        Some(ordering_of(compare_bytes(self@.bytes, (**other)@)))
    }
}

impl<'a> PartialOrd<&'a String> for MetadataValue<Ascii> {
    fn partial_cmp(&self, other: &&'a String) -> (r: Option<Ordering>) {
        Some(to_ordering(bytes_compare(self.as_slice(), (**other).as_str().as_bytes())))
    }
}

impl<'a> PartialOrdSpecImpl<&'a String> for MetadataValue<Ascii> {
    open spec fn obeys_partial_cmp_spec() -> bool {
        true
    }

    open spec fn partial_cmp_spec(&self, other: &&'a String) -> Option<Ordering> {
        Some(ordering_of(compare_bytes(self@.bytes, encode_utf8((**other)@))))
    }
}

impl<'a, VE: ValueEncoding> PartialOrd<&'a MetadataValue<VE>> for MetadataValue<VE> {
    fn partial_cmp(&self, other: &&'a MetadataValue<VE>) -> (r: Option<Ordering>) {
        Some(to_ordering(bytes_compare(self.as_slice(), (**other).as_slice())))
    }
}

impl<'a, VE: ValueEncoding> PartialOrdSpecImpl<&'a MetadataValue<VE>> for MetadataValue<VE> {
    open spec fn obeys_partial_cmp_spec() -> bool {
        true
    }

    open spec fn partial_cmp_spec(&self, other: &&'a MetadataValue<VE>) -> Option<Ordering> {
        Some(ordering_of(compare_bytes(self@.bytes, (**other)@.bytes)))
    }
}

impl<'a, VE: ValueEncoding> PartialEq<MetadataValue<VE>> for &'a str {
    fn eq(&self, other: &MetadataValue<VE>) -> (r: bool) {
        *other == **self
    }
}

impl<'a, VE: ValueEncoding> PartialEqSpecImpl<MetadataValue<VE>> for &'a str {
    open spec fn obeys_eq_spec() -> bool {
        true
    }

    open spec fn eq_spec(&self, other: &MetadataValue<VE>) -> bool {
        other@.bytes == (**self).spec_bytes()
    }
}

impl<'a> PartialOrd<MetadataValue<Ascii>> for &'a str {
    fn partial_cmp(&self, other: &MetadataValue<Ascii>) -> (r: Option<Ordering>) {
        Some(to_ordering(bytes_compare((**self).as_bytes(), other.as_bytes())))
    }
}

impl<'a> PartialOrdSpecImpl<MetadataValue<Ascii>> for &'a str {
    open spec fn obeys_partial_cmp_spec() -> bool {
        true
    }

    open spec fn partial_cmp_spec(&self, other: &MetadataValue<Ascii>) -> Option<Ordering> {
        Some(ordering_of(compare_bytes((**self).spec_bytes(), other@.bytes)))
    }
}

} // verus!
