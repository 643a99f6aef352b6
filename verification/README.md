# metadata_value

Custom metadata values for gRPC calls, written in Verus. An ASCII value is
sent as it is; a binary value is sent as base64 text. The library validates
values, converts them to and from strings, byte slices, `bytes::Bytes`,
integers and metadata keys, and compares them; sensitivity takes no part in
equality or order.

- `src/header.rs`: the byte classes of header values and names, and the calls
  into `http` (validation, integer rendering, header names, debug text).
- `src/shared.rs`: `bytes::Bytes` and the calls that move bytes in and out of it.
- `src/encoding.rs`: the `ValueEncoding` trait, its `Ascii` and `Binary`
  encodings, the value errors, and the call into `base64`.
- `src/value.rs`: `MetadataValue` and its model, construction, conversions and
  sensitivity; `ToStrError`.
- `src/order.rs`: the lexicographic order of byte strings and its proofs.
- `src/compare.rs`: `PartialEq` / `PartialOrd` impls, against values, strings
  and byte slices.
- `src/key.rs`: `MetadataKey`, as far as values are made from keys.
- `src/convert.rs`: `From`, `FromStr`, `AsRef` and `Hash` impls.
- `src/laws.rs`: the properties that span several functions, as proof functions.
- `app/lib.rs`: `Display` and `Error` for a copy of `ToStrError`.
