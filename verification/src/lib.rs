//! Control-protocol toolkit for a line of broadcast cameras speaking a
//! binary command protocol over a byte-oriented transport. A machine-readable
//! protocol schema drives a generated command model; around it stand a wire
//! codec for the fixed-header frames and a parameter codec for the payload
//! value types, both with verified, lossless contracts.

pub mod command;
pub mod data;
pub mod error;
pub mod message;
pub mod paramcodec;
pub mod rawcommand;
pub mod schema;
pub mod typemap;

pub use rawcommand::Operation;
