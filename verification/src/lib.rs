//! MD5 message digest (RFC 1321): padding, block compression, digest
//! serialization, and hexadecimal rendering, with machine-checked contracts.
//!
//! MD5 is not collision resistant; this crate is for checksumming and legacy
//! interoperability, not for security.

pub mod compress;
pub mod digest;
pub mod hex;
pub mod padding;
pub mod state;
pub mod tables;

pub use state::MD5State;
