//! Sessions: the claims of a session token, the credentials that carry one,
//! and the two stages that turn a credential into an authorised request.

pub mod claims;
pub mod credential;
pub mod enforcer;
pub mod resolver;
