//! A small key-value file store: each key is persisted as one file whose
//! content is the standard base64 encoding of the UTF-8 bytes of the value.
//!
//! The library holds the store's logic — file naming, payload encoding and
//! decoding, the outcome of a lookup, and the laws the store obeys over an
//! abstract directory — as verified functions. The filesystem itself is the
//! caller's: callers read and write the named files and hand the plain
//! contents in and out.

pub mod codec;
pub mod errors;
pub mod store;
