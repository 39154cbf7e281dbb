//! Codec for a binary control protocol that reads and writes parameter
//! memory on an addressable peripheral chip. The library recognises command
//! frames in a raw byte buffer, validates declared lengths against the bytes
//! actually available, extracts the typed header fields, and serialises
//! response frames in the exact layout the controller expects — including a
//! deliberate off-by-one in the response length field that existing
//! controller software depends on.

pub mod error;
pub mod fields;
pub mod protocol;
