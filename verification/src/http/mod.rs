//! What the service reads from HTTP request headers.

pub mod auth;
pub mod headers;
pub mod origin;
