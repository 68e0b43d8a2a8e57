//! A REST-to-JSON-RPC translation gateway for a blockchain full node.
//!
//! The verified core is the translation layer: parsing and validation of
//! path identifiers (hex digests and decimal heights), the fixed route
//! table mapping REST paths to upstream RPC calls, and the mapping of
//! outcomes to HTTP replies.

pub mod hex;
pub mod laws;
pub mod num;
pub mod reply;
pub mod route;
pub mod text;
