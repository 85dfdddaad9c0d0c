//! Stores a 32-bit number, sent as a four-byte little-endian payload, at the
//! start of the data buffer of an account that the calling program owns.

pub mod account;
pub mod error;
pub mod laws;
pub mod le32;
pub mod program;
