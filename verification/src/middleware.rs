//! The guard in front of protected routes: a valid bearer token with a live session.
pub mod claims;
pub mod auth;
