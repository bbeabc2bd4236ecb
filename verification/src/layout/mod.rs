//! How records are laid out in bytes.
//!
//! A stored record is an eight-byte discriminator that names its type,
//! followed by its fields in a fixed order. Integers are little-endian, a
//! text is its byte length as a `u32` and then its UTF-8 bytes, and an
//! optional address is a tag byte and then the address, if any. Every text
//! has a maximum width, so every record has a maximum size.

pub mod fields;
pub mod record;
pub mod records;
pub mod wire;

pub use fields::{decode_fields, encode_fields};
pub use record::{decode, discriminator_of, encode, Record, DISCRIMINATOR_LEN};
pub use wire::{decode_value, encode_value, Kind, LayoutError, Value, ValueView};
