//! Parsing, inspection and generation of universally unique identifiers.
//!
//! A [`UuidValue`] is sixteen bytes in the big-endian layout of RFC 4122 and
//! RFC 9562. Every accessor is a pure function of those bytes, and its contract
//! is stated over the byte sequence that the value views as.

pub mod error;
pub mod extract;
pub mod generate;
pub mod hex;
pub mod text;
pub mod timestamp;
pub mod value;

pub use error::UuidError;
pub use extract::{extract_node, extract_timestamp, extract_version};
pub use generate::{generate_v4, generate_v7};
pub use text::{format_node, parse_uuid};
pub use timestamp::UnixTime;
pub use value::{UuidValue, Variant};
