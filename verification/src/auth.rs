//! Authentication: the claims of a caller's token, how a request proves them, and the
//! service that checks tokens.
pub mod claims;
pub mod jwt;
pub mod extractor;
