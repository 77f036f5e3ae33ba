//! Request authentication for HTTP services: signed session claims, credential
//! extraction, account resolution and access enforcement, together with the
//! symmetric cipher and the key material that protect a service's secrets.
//!
//! Every function of this crate carries a contract that Verus proves. The
//! calls into cryptographic and encoding crates are the only parts taken on
//! trust; each of them is a small function whose documentation says what is
//! believed of the code behind it.

pub mod api;
pub mod security;
pub mod session;
