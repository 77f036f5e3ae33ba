//! The answers that the authentication stages give to a client.

pub mod response;
