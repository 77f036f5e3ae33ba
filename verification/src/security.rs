//! Key material, authenticated encryption and signed claims.

pub mod claims;
pub mod crypto;
pub mod primitives;
pub mod secrets;
