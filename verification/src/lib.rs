//! The decision logic of a serde-compatible reader of Avro values.
//!
//! Each deserializer here decides, from the value it holds, which visit a
//! serde visitor receives (or which error is reported), and each access
//! object walks the entries of an array, a map or a record in order.
//! Driving an actual serde visitor with those decisions is left to the caller.

pub mod access;
pub mod de;
pub mod error;
pub mod laws;
pub mod text;
pub mod value;
