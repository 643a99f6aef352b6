//! Custom metadata values for gRPC calls: ASCII values, sent as they are, and
//! binary values, sent in base64; their validation, conversions and
//! comparisons, with their contracts proved by Verus.
use vstd::prelude::*;

pub mod header;
pub mod shared;
pub mod encoding;
pub mod value;
pub mod order;
pub mod compare;
pub mod key;
pub mod convert;
pub mod laws;
pub mod text_laws;

pub use encoding::{Ascii, Binary, InvalidMetadataValue, InvalidMetadataValueBytes, ValueEncoding};
pub use key::{InvalidMetadataKey, MetadataKey};
pub use value::{AsciiMetadataValue, BinaryMetadataValue, MetadataValue, ToStrError, ValueModel};

verus! {

} // verus!
