//! Conversion between PostgreSQL's binary array format and growable sequences.
//!
//! The byte layout of an array value belongs to the `postgres-protocol` crate,
//! which this library calls for every read and write of it. What is proved here
//! is what the conversion does with the pieces that crate hands out: which
//! buffers are refused, which element is decoded into which place, and which
//! error wins when several things are wrong.

pub mod decode;
pub mod encode;
pub mod round_trip;
pub mod element;
pub mod error;
pub mod types;
pub mod wire;
