use bytes::Bytes;
use metadata_value::{
    Ascii, AsciiMetadataValue, Binary, BinaryMetadataValue, MetadataKey, MetadataValue, ToStrError,
};
use std::cmp::Ordering;
use std::collections::hash_map::DefaultHasher;
use std::hash::{Hash, Hasher};

#[test]
fn it_can_insert_metadata_key_as_metadata_value() {
    let value: AsciiMetadataValue = MetadataKey::<Ascii>::from_bytes(b"hello-world").unwrap().into();
    assert!(value == AsciiMetadataValue::try_from_bytes(b"hello-world").unwrap());
}

#[test]
fn test_debug() {
    let cases = &[
        ("hello", "\"hello\""),
        ("hello \"world\"", "\"hello \\\"world\\\"\""),
        ("\u{7FFF}hello", "\"\\xe7\\xbf\\xbfhello\""),
    ];

    for &(value, expected) in cases {
        let val = AsciiMetadataValue::try_from_bytes(value.as_bytes()).unwrap();
        let actual = val.debug_text();
        assert_eq!(expected, actual);
    }

    let mut sensitive = AsciiMetadataValue::from_static("password");
    sensitive.set_sensitive(true);
    assert_eq!("Sensitive", sensitive.debug_text());
}

#[test]
fn from_u16() {
    let n: u16 = 55;
    let val = AsciiMetadataValue::from(n);
    assert!(val == &n.to_string());

    let n = u16::MAX;
    let val = AsciiMetadataValue::from(n);
    assert!(val == &n.to_string());
}

#[test]
fn from_i16() {
    let n: i16 = 55;
    let val = AsciiMetadataValue::from(n);
    assert!(val == &n.to_string());

    let n = i16::MAX;
    let val = AsciiMetadataValue::from(n);
    assert!(val == &n.to_string());
}

#[test]
fn from_u32() {
    let n: u32 = 55;
    let val = AsciiMetadataValue::from(n);
    assert!(val == &n.to_string());

    let n = u32::MAX;
    let val = AsciiMetadataValue::from(n);
    assert!(val == &n.to_string());
}

#[test]
fn from_i32() {
    let n: i32 = 55;
    let val = AsciiMetadataValue::from(n);
    assert!(val == &n.to_string());

    let n = i32::MAX;
    let val = AsciiMetadataValue::from(n);
    assert!(val == &n.to_string());
}

#[test]
fn from_u64() {
    let n: u64 = 55;
    let val = AsciiMetadataValue::from(n);
    assert!(val == &n.to_string());

    let n = u64::MAX;
    let val = AsciiMetadataValue::from(n);
    assert!(val == &n.to_string());
}

#[test]
fn from_i64() {
    let n: i64 = 55;
    let val = AsciiMetadataValue::from(n);
    assert!(val == &n.to_string());

    let n = i64::MAX;
    let val = AsciiMetadataValue::from(n);
    assert!(val == &n.to_string());
}

#[test]
fn from_usize() {
    let n: usize = 55;
    let val = AsciiMetadataValue::from(n);
    assert!(val == &n.to_string());

    let n = usize::MAX;
    let val = AsciiMetadataValue::from(n);
    assert!(val == &n.to_string());
}

#[test]
fn from_isize() {
    let n: isize = 55;
    let val = AsciiMetadataValue::from(n);
    assert!(val == &n.to_string());

    let n = isize::MAX;
    let val = AsciiMetadataValue::from(n);
    assert!(val == &n.to_string());
}

#[test]
fn negative_and_minimal_integers_are_written_in_decimal() {
    assert!(AsciiMetadataValue::from(-7i32) == "-7");
    assert!(AsciiMetadataValue::from(0u64) == "0");
    assert!(AsciiMetadataValue::from(i64::MIN) == "-9223372036854775808");
    assert!(AsciiMetadataValue::from(i16::MIN) == "-32768");
}

#[test]
fn is_empty_for_ascii_values() {
    let val = AsciiMetadataValue::from_static("");
    assert!(val.is_empty());

    let val = AsciiMetadataValue::from_static("hello");
    assert!(!val.is_empty());
}

#[test]
fn to_bytes_of_an_ascii_value_is_its_bytes() {
    let val = AsciiMetadataValue::from_static("hello");
    assert_eq!(val.to_bytes().unwrap().as_ref(), b"hello");
}

#[test]
fn set_sensitive_is_read_back() {
    let mut val = AsciiMetadataValue::from_static("my secret");
    assert!(!val.is_sensitive());

    val.set_sensitive(true);
    assert!(val.is_sensitive());

    val.set_sensitive(false);
    assert!(!val.is_sensitive());
}

#[test]
fn sensitivity_does_not_change_equality_or_order() {
    let plain = AsciiMetadataValue::from_static("my secret");
    let mut secret = AsciiMetadataValue::from_static("my secret");
    secret.set_sensitive(true);
    assert!(plain == secret);
    assert_eq!(plain.partial_cmp(&secret), Some(Ordering::Equal));
    assert_eq!(plain.cmp(&secret), Ordering::Equal);
    assert!(secret == "my secret");
}

#[test]
fn from_static_keeps_the_string() {
    let val = AsciiMetadataValue::from_static("hello");
    assert!(val == "hello");
    assert_eq!(val.as_bytes(), b"hello");
}

#[test]
fn from_str_accepts_visible_ascii() {
    let val = AsciiMetadataValue::from_str("hello").unwrap();
    assert!(val == "hello");
    let parsed: AsciiMetadataValue = "hello world".parse().unwrap();
    assert!(parsed == "hello world");
}

#[test]
fn from_str_rejects_invalid_characters() {
    assert!(AsciiMetadataValue::from_str("\n").is_err());
    assert!(AsciiMetadataValue::from_str("caf\u{e9}").is_err());
    assert!("\u{7f}".parse::<AsciiMetadataValue>().is_err());
}

#[test]
fn from_key_gives_the_key_bytes() {
    let val = AsciiMetadataValue::from_key::<Ascii>(MetadataKey::from_bytes(b"accept").unwrap());
    assert!(val == AsciiMetadataValue::try_from_bytes(b"accept").unwrap());
}

#[test]
fn from_key_of_a_binary_key_and_a_mixed_case_key() {
    let bin = MetadataKey::<Binary>::from_bytes(b"Trace-BIN").unwrap();
    assert_eq!(bin.as_bytes(), b"trace-bin");
    let val = AsciiMetadataValue::from_key(bin);
    assert!(val == "trace-bin");
}

#[test]
fn metadata_keys_are_checked() {
    assert!(MetadataKey::<Ascii>::from_bytes(b"").is_err());
    assert!(MetadataKey::<Ascii>::from_bytes(b"bad key").is_err());
    assert!(MetadataKey::<Ascii>::from_bytes(b"trace-bin").is_err());
    assert!(MetadataKey::<Binary>::from_bytes(b"trace").is_err());
    assert!(MetadataKey::<Binary>::from_bytes(b"trace-bin").is_ok());
}

#[test]
fn try_from_bytes_accepts_opaque_octets() {
    let val = AsciiMetadataValue::try_from_bytes(b"hello\xfa").unwrap();
    assert!(val == &b"hello\xfa"[..]);
    assert!(AsciiMetadataValue::try_from_bytes(b"\x80\xff").is_ok());
}

#[test]
fn try_from_bytes_rejects_control_bytes() {
    assert!(AsciiMetadataValue::try_from_bytes(b"\n").is_err());
    assert!(AsciiMetadataValue::try_from_bytes(b"\x7f").is_err());
    assert!(AsciiMetadataValue::try_from_bytes(b"a\x00b").is_err());
    assert!(AsciiMetadataValue::try_from_bytes(b"tab\there").is_err());
    assert!(AsciiMetadataValue::from_shared(Bytes::from_static(b"tab\there")).is_err());
    assert!(AsciiMetadataValue::from_str("tab\there").is_err());
}

#[test]
fn len_counts_bytes() {
    let val = AsciiMetadataValue::from_static("hello");
    assert_eq!(val.len(), 5);
    let val = AsciiMetadataValue::try_from_bytes(b"\xfa\xfb").unwrap();
    assert_eq!(val.len(), 2);
}

#[test]
fn to_str_of_visible_ascii() {
    let val = AsciiMetadataValue::from_static("hello");
    assert_eq!(val.to_str().unwrap(), "hello");
}

#[test]
fn to_str_rejects_opaque_octets() {
    let val = AsciiMetadataValue::try_from_bytes(b"hello\xfa").unwrap();
    let err: ToStrError = val.to_str().unwrap_err();
    assert_eq!(err.description(), "failed to convert metadata to a str");
    let _ = ToStrError::new();
    let _ = ToStrError::default();
}

#[test]
fn binary_from_bytes_keeps_the_bytes() {
    let val = BinaryMetadataValue::from_bytes(b"hello\xfa");
    assert!(val == &b"hello\xfa"[..]);
}

#[test]
fn ascii_from_shared_checks_the_bytes() {
    let val = AsciiMetadataValue::from_shared(Bytes::from_static(b"hello")).unwrap();
    assert!(val == "hello");
    assert!(AsciiMetadataValue::from_shared(Bytes::from_static(b"a\nb")).is_err());
}

#[test]
fn binary_from_shared_checks_base64() {
    let val = BinaryMetadataValue::from_shared(Bytes::from_static(b"aGVsbG8")).unwrap();
    assert!(val == "aGVsbG8");
    assert_eq!(val.to_bytes().unwrap().as_ref(), b"hello");
    assert!(BinaryMetadataValue::from_shared(Bytes::from_static(b"aGVsbG8=")).is_ok());
    assert!(BinaryMetadataValue::from_shared(Bytes::from_static(b"not base64!")).is_err());
    assert!(BinaryMetadataValue::from_shared(Bytes::from_static(b"a")).is_err());
}

#[test]
fn binary_to_bytes_fails_on_text_that_is_not_base64() {
    let val = BinaryMetadataValue::from_bytes(b"hello\xfa");
    assert!(val.to_bytes().is_err());
}

#[test]
fn binary_is_empty_when_the_text_carries_no_data() {
    assert!(BinaryMetadataValue::from_bytes(b"").is_empty());
    assert!(BinaryMetadataValue::from_bytes(b"==").is_empty());
    assert!(!BinaryMetadataValue::from_bytes(b"aGk").is_empty());
}

#[test]
fn from_shared_unchecked_keeps_the_buffer() {
    let val = AsciiMetadataValue::from_shared_unchecked(Bytes::from_static(b"hello"));
    assert!(val == "hello");
    let val = BinaryMetadataValue::from_shared_unchecked(Bytes::from_static(b"aGk"));
    assert_eq!(val.to_bytes().unwrap().as_ref(), b"hi");
}

#[test]
fn values_order_by_their_bytes() {
    let a = AsciiMetadataValue::from_static("abc");
    let b = AsciiMetadataValue::from_static("abd");
    let ab = AsciiMetadataValue::from_static("ab");
    assert!(a < b);
    assert!(ab < a);
    assert!(b > ab);
    assert_eq!(a.cmp(&b), Ordering::Less);
    assert_eq!(b.cmp(&a), Ordering::Greater);
    assert_eq!(a.cmp(&a.clone()), Ordering::Equal);
    assert!(a < "abd");
    assert!(a < &b"abd"[..]);
    assert!("abd" > a);
    assert!(String::from("abd") > a);
    assert!(a < String::from("abd"));
    assert!(b"ab"[..] < a);
}

#[test]
fn values_compare_with_strings_and_bytes_both_ways() {
    let val = AsciiMetadataValue::from_static("hello");
    assert!(val == "hello");
    assert!("hello" == val);
    assert!(val == *"hello");
    assert!(*"hello" == val);
    assert!(val == b"hello"[..]);
    assert!(b"hello"[..] == val);
    assert!(val == String::from("hello"));
    assert!(String::from("hello") == val);
    assert!(&val == val.clone());
    assert!(val != "world");
}

#[test]
fn conversions_to_bytes_and_from_references() {
    let val = AsciiMetadataValue::from_static("hello");
    let copy = MetadataValue::from(&val);
    assert!(copy == val);
    let b: Bytes = val.into();
    assert_eq!(b.as_ref(), b"hello");
    let other = AsciiMetadataValue::from_static("x");
    let r: &[u8] = other.as_ref();
    assert_eq!(r, b"x");
}

#[test]
fn equal_values_hash_alike() {
    let plain = AsciiMetadataValue::from_static("k");
    let mut secret = AsciiMetadataValue::from_static("k");
    secret.set_sensitive(true);
    let mut h1 = DefaultHasher::new();
    plain.hash(&mut h1);
    let mut h2 = DefaultHasher::new();
    secret.hash(&mut h2);
    assert_eq!(h1.finish(), h2.finish());
}

#[test]
fn bytes_and_strings_round_trip() {
    let v = AsciiMetadataValue::try_from_bytes(b"caf\xc3\xa9 ok").unwrap();
    let w = AsciiMetadataValue::try_from_bytes(v.as_bytes()).unwrap();
    assert!(v == w);

    let s = AsciiMetadataValue::from_str("plain text").unwrap();
    assert_eq!(s.to_str().unwrap(), "plain text");
    let t = AsciiMetadataValue::from_static("static text");
    assert_eq!(t.to_str().unwrap(), "static text");
}

#[test]
fn equality_is_an_equivalence_on_examples() {
    let a = AsciiMetadataValue::from_static("x");
    let b = AsciiMetadataValue::from_str("x").unwrap();
    let c = AsciiMetadataValue::try_from_bytes(b"x").unwrap();
    assert!(a == a);
    assert!(a == b && b == a);
    assert!(b == c && a == c);
}

#[test]
fn binary_emptiness_agrees_with_the_decoded_data() {
    let empty = BinaryMetadataValue::from_shared(Bytes::from_static(b"")).unwrap();
    assert!(empty.is_empty());
    assert!(empty.to_bytes().unwrap().is_empty());
    let full = BinaryMetadataValue::from_shared(Bytes::from_static(b"aGk")).unwrap();
    assert!(!full.is_empty());
    assert_eq!(full.to_bytes().unwrap().as_ref(), b"hi");
    assert!(BinaryMetadataValue::from_shared(Bytes::from_static(b"==")).is_err());
}

#[test]
fn binary_text_of_any_length_round_trips() {
    for (text, data) in [
        (&b"aA"[..], &b"h"[..]),
        (&b"aGk"[..], &b"hi"[..]),
        (&b"aGkh"[..], &b"hi!"[..]),
        (&b"/+8"[..], &b"\xff\xef"[..]),
    ] {
        let v = BinaryMetadataValue::from_shared(Bytes::copy_from_slice(text)).unwrap();
        assert_eq!(v.to_bytes().unwrap().as_ref(), data);
    }
}
